//! The monitor's state and its two transitions: a tick takes in a fresh snapshot, a
//! key is handled according to the input mode.

use crate::cursor::Cursor;
use crate::history::{shifted, HistorySeries};
use crate::input::{Action, InputMode, KeyCode, KeyEventKind};
use crate::process::{
    build_process_view, lemma_view_entries_come_from_table, lemma_view_with_query, process_view,
    ProcessInfo,
};
use crate::snapshot::{network_totals, total_received, total_transmitted, traffic_fits, Snapshot};
use crate::theme::ThemePreset;
use vstd::prelude::*;

verus! {

/// How many samples each history holds.
pub const HISTORY_LEN: usize = 100;

/// Everything the monitor knows between two events.
pub struct App {
    cpu_history: HistorySeries,
    mem_history: HistorySeries,
    net_rx_history: HistorySeries,
    net_tx_history: HistorySeries,
    should_quit: bool,
    cursor: Cursor,
    processes: Vec<ProcessInfo>,
    input_mode: InputMode,
    search_query: String,
    selected_pid: Option<u32>,
    current_theme: ThemePreset,
}

/// The state of an `App` as plain values.
pub struct AppState {
    /// CPU load in percent, one sample for each tick, oldest first.
    pub cpu_history: Seq<u64>,
    /// Memory in use in percent, one sample for each tick.
    pub mem_history: Seq<u64>,
    /// Bytes received on all interfaces, one sample for each tick.
    pub net_rx_history: Seq<u64>,
    /// Bytes transmitted on all interfaces, one sample for each tick.
    pub net_tx_history: Seq<u64>,
    /// Set once the user has asked to leave.
    pub should_quit: bool,
    /// The highlighted position in the view.
    pub cursor: Cursor,
    /// The process view of the last tick.
    pub processes: Seq<ProcessInfo>,
    /// What keystrokes currently mean.
    pub input_mode: InputMode,
    /// The search query as typed so far. It narrows the view from the next tick on.
    pub search_query: Seq<char>,
    /// The process under inspection while the mode is `Details`.
    pub selected_pid: Option<u32>,
    /// The theme in use.
    pub current_theme: ThemePreset,
}

impl View for App {
    type V = AppState;

    closed spec fn view(&self) -> AppState {
        AppState {
            cpu_history: self.cpu_history@,
            mem_history: self.mem_history@,
            net_rx_history: self.net_rx_history@,
            net_tx_history: self.net_tx_history@,
            should_quit: self.should_quit,
            cursor: self.cursor,
            processes: self.processes@,
            input_mode: self.input_mode,
            search_query: self.search_query@,
            selected_pid: self.selected_pid,
            current_theme: self.current_theme,
        }
    }
}

impl AppState {
    /// The state a monitor starts in: histories of zeroes, nothing to show yet, normal
    /// mode, no query.
    pub open spec fn initial() -> AppState {
        AppState {
            cpu_history: Seq::new(HISTORY_LEN as nat, |i: int| 0u64),
            mem_history: Seq::new(HISTORY_LEN as nat, |i: int| 0u64),
            net_rx_history: Seq::new(HISTORY_LEN as nat, |i: int| 0u64),
            net_tx_history: Seq::new(HISTORY_LEN as nat, |i: int| 0u64),
            should_quit: false,
            cursor: Cursor::absent(),
            processes: Seq::empty(),
            input_mode: InputMode::Normal,
            search_query: Seq::empty(),
            selected_pid: None,
            current_theme: ThemePreset::Default,
        }
    }

    /// What holds of every state a monitor can reach: the cursor is good for the view,
    /// a process is under inspection exactly while the mode is `Details`, and every
    /// history has its full length.
    pub open spec fn wf(self) -> bool {
        &&& self.processes.len() <= usize::MAX
        &&& self.cursor.fits(self.processes.len() as usize)
        &&& self.selected_pid.is_some() <==> self.input_mode == InputMode::Details
        &&& self.cpu_history.len() == HISTORY_LEN
        &&& self.mem_history.len() == HISTORY_LEN
        &&& self.net_rx_history.len() == HISTORY_LEN
        &&& self.net_tx_history.len() == HISTORY_LEN
    }

    /// The identifier of the process under the cursor, if the cursor points at one.
    pub open spec fn target_pid(self) -> Option<u32> {
        match self.cursor.index {
            Some(i) => if i < self.processes.len() {
                Some(self.processes[i as int].pid)
            } else {
                None
            },
            None => None,
        }
    }

    /// The state after a tick that brought `snapshot`: each history takes its sample,
    /// the view is rebuilt under the current query, and the cursor is brought into it.
    pub open spec fn after_tick(self, snapshot: Snapshot) -> AppState
        recommends
            traffic_fits(snapshot.interfaces@),
    {
        let view = process_view(snapshot.processes@, self.search_query);
        AppState {
            cpu_history: shifted(self.cpu_history, snapshot.cpu_percent),
            mem_history: shifted(self.mem_history, snapshot.mem_percent),
            net_rx_history: shifted(
                self.net_rx_history,
                total_received(snapshot.interfaces@) as u64,
            ),
            net_tx_history: shifted(
                self.net_tx_history,
                total_transmitted(snapshot.interfaces@) as u64,
            ),
            processes: view,
            cursor: self.cursor.reconciled(view.len() as usize),
            ..self
        }
    }

    /// The state after the cursor went one position down.
    pub open spec fn after_next_process(self) -> AppState {
        AppState { cursor: self.cursor.after_next(self.processes.len() as usize), ..self }
    }

    /// The state after the cursor went one position up.
    pub open spec fn after_previous_process(self) -> AppState {
        AppState { cursor: self.cursor.after_previous(self.processes.len() as usize), ..self }
    }

    /// The state after a request to inspect the process under the cursor: the inspector
    /// opens on it, or nothing changes where the cursor points at no process.
    pub open spec fn after_inspect(self) -> AppState {
        match self.target_pid() {
            Some(pid) => AppState {
                selected_pid: Some(pid),
                input_mode: InputMode::Details,
                ..self
            },
            None => self,
        }
    }

    /// The state after a key was pressed. Keys that the mode has no use for change
    /// nothing.
    pub open spec fn after_key(self, key: KeyCode) -> AppState {
        match self.input_mode {
            InputMode::Normal => match key {
                KeyCode::Char('q') | KeyCode::Esc => AppState { should_quit: true, ..self },
                KeyCode::Down | KeyCode::Char('j') => self.after_next_process(),
                KeyCode::Up | KeyCode::Char('k') => self.after_previous_process(),
                KeyCode::Char('/') => AppState {
                    input_mode: InputMode::Editing,
                    cursor: Cursor::at(0),
                    ..self
                },
                KeyCode::Enter => self.after_inspect(),
                KeyCode::Char('t') => AppState {
                    current_theme: self.current_theme.successor(),
                    ..self
                },
                _ => self,
            },
            InputMode::Editing => match key {
                KeyCode::Enter => AppState { input_mode: InputMode::Normal, ..self },
                KeyCode::Esc => AppState {
                    input_mode: InputMode::Normal,
                    search_query: Seq::empty(),
                    ..self
                },
                KeyCode::Backspace => AppState {
                    search_query: if self.search_query.len() > 0 {
                        self.search_query.drop_last()
                    } else {
                        self.search_query
                    },
                    ..self
                },
                KeyCode::Char(c) => AppState { search_query: self.search_query.push(c), ..self },
                _ => self,
            },
            InputMode::Details => match key {
                KeyCode::Esc | KeyCode::Enter | KeyCode::Backspace => AppState {
                    input_mode: InputMode::Normal,
                    selected_pid: None,
                    ..self
                },
                _ => self,
            },
        }
    }

    /// What a key press asks of the caller: to terminate the process under the cursor,
    /// for the kill keys in normal mode, and nothing otherwise.
    pub open spec fn action_of(self, key: KeyCode) -> Action {
        match (self.input_mode, key) {
            (InputMode::Normal, KeyCode::Char('x')) | (InputMode::Normal, KeyCode::Delete) => {
                match self.target_pid() {
                    Some(pid) => Action::Terminate(pid),
                    None => Action::Nothing,
                }
            },
            _ => Action::Nothing,
        }
    }
}

impl App {
    /// A monitor in its initial state.
    pub fn new() -> (app: Self)
        ensures
            app@ == AppState::initial(),
            app@.wf(),
    {
        App {
            cpu_history: HistorySeries::new(HISTORY_LEN),
            mem_history: HistorySeries::new(HISTORY_LEN),
            net_rx_history: HistorySeries::new(HISTORY_LEN),
            net_tx_history: HistorySeries::new(HISTORY_LEN),
            should_quit: false,
            cursor: Cursor::new(),
            processes: Vec::new(),
            input_mode: InputMode::Normal,
            search_query: String::new(),
            selected_pid: None,
            current_theme: ThemePreset::Default,
        }
    }

    /// The history of the CPU load.
    pub fn cpu_history(&self) -> (series: &HistorySeries)
        ensures
            series@ == self@.cpu_history,
    {
        &self.cpu_history
    }

    /// The history of the memory in use.
    pub fn mem_history(&self) -> (series: &HistorySeries)
        ensures
            series@ == self@.mem_history,
    {
        &self.mem_history
    }

    /// The history of the bytes received.
    pub fn net_rx_history(&self) -> (series: &HistorySeries)
        ensures
            series@ == self@.net_rx_history,
    {
        &self.net_rx_history
    }

    /// The history of the bytes transmitted.
    pub fn net_tx_history(&self) -> (series: &HistorySeries)
        ensures
            series@ == self@.net_tx_history,
    {
        &self.net_tx_history
    }

    /// Whether the user has asked to leave.
    pub fn should_quit(&self) -> (quit: bool)
        ensures
            quit == self@.should_quit,
    {
        self.should_quit
    }

    /// The highlighted position in the view, if there is one.
    pub fn selected(&self) -> (index: Option<usize>)
        ensures
            index == self@.cursor.index,
    {
        self.cursor.selected()
    }

    /// The process view of the last tick.
    pub fn processes(&self) -> (view: &Vec<ProcessInfo>)
        ensures
            view@ == self@.processes,
    {
        &self.processes
    }

    /// What keystrokes currently mean.
    pub fn input_mode(&self) -> (mode: InputMode)
        ensures
            mode == self@.input_mode,
    {
        self.input_mode
    }

    /// The search query as typed so far.
    pub fn search_query(&self) -> (query: &str)
        ensures
            query@ == self@.search_query,
    {
        self.search_query.as_str()
    }

    /// The process under inspection, if the inspector is open.
    pub fn selected_pid(&self) -> (pid: Option<u32>)
        ensures
            pid == self@.selected_pid,
    {
        self.selected_pid
    }

    /// The theme in use.
    pub fn current_theme(&self) -> (preset: ThemePreset)
        ensures
            preset == self@.current_theme,
    {
        self.current_theme
    }

    /// Takes in the snapshot of a tick. The traffic of all interfaces together has to be
    /// a number that a sample can hold; `network_totals` tells whether it is.
    pub fn on_tick(&mut self, snapshot: Snapshot)
        requires
            traffic_fits(snapshot.interfaces@),
        ensures
            final(self)@ == old(self)@.after_tick(snapshot),
            old(self)@.wf() ==> final(self)@.wf(),
    {
        proof {
            if self@.wf() {
                lemma_tick_keeps_wf(self@, snapshot);
            }
        }
        self.cpu_history.push(snapshot.cpu_percent);
        self.mem_history.push(snapshot.mem_percent);
        if let Some((received, transmitted)) = network_totals(&snapshot.interfaces) {
            self.net_rx_history.push(received);
            self.net_tx_history.push(transmitted);
        }
        self.processes = build_process_view(snapshot.processes, self.search_query.as_str());
        self.cursor.reconcile(self.processes.len());
    }

    /// Moves the cursor one position down, from the last entry to the first.
    pub fn next_process(&mut self)
        ensures
            final(self)@ == old(self)@.after_next_process(),
            old(self)@.wf() ==> final(self)@.wf(),
    {
        self.cursor.next(self.processes.len());
    }

    /// Moves the cursor one position up, from the first entry to the last.
    pub fn previous_process(&mut self)
        ensures
            final(self)@ == old(self)@.after_previous_process(),
            old(self)@.wf() ==> final(self)@.wf(),
    {
        self.cursor.previous(self.processes.len());
    }

    fn target(&self) -> (target: Option<u32>)
        ensures
            target == self@.target_pid(),
    {
        match self.cursor.selected() {
            Some(i) => if i < self.processes.len() {
                Some(self.processes[i].pid)
            } else {
                None
            },
            None => None,
        }
    }

    /// The identifier of the process under the cursor, for the caller to terminate, or
    /// `None` where the cursor points at no process.
    pub fn kill_selected_process(&self) -> (target: Option<u32>)
        ensures
            target == self@.target_pid(),
    {
        self.target()
    }

    /// Opens the inspector on the process under the cursor, if the cursor points at
    /// one.
    pub fn inspect_selected_process(&mut self)
        ensures
            final(self)@ == old(self)@.after_inspect(),
            old(self)@.wf() ==> final(self)@.wf(),
    {
        match self.target() {
            Some(pid) => {
                self.selected_pid = Some(pid);
                self.input_mode = InputMode::Details;
            },
            None => {},
        }
    }

    /// Handles a key that was pressed, and says what the caller has to do.
    pub fn handle_key(&mut self, key: KeyCode) -> (action: Action)
        ensures
            final(self)@ == old(self)@.after_key(key),
            action == old(self)@.action_of(key),
            old(self)@.wf() ==> final(self)@.wf(),
    {
        match self.input_mode {
            InputMode::Normal => match key {
                KeyCode::Char('q') | KeyCode::Esc => {
                    self.should_quit = true;
                    Action::Nothing
                },
                KeyCode::Down | KeyCode::Char('j') => {
                    self.next_process();
                    Action::Nothing
                },
                KeyCode::Up | KeyCode::Char('k') => {
                    self.previous_process();
                    Action::Nothing
                },
                KeyCode::Char('x') | KeyCode::Delete => match self.kill_selected_process() {
                    Some(pid) => Action::Terminate(pid),
                    None => Action::Nothing,
                },
                KeyCode::Char('/') => {
                    self.input_mode = InputMode::Editing;
                    self.cursor.reset();
                    Action::Nothing
                },
                KeyCode::Enter => {
                    self.inspect_selected_process();
                    Action::Nothing
                },
                KeyCode::Char('t') => {
                    self.current_theme = self.current_theme.next();
                    Action::Nothing
                },
                _ => Action::Nothing,
            },
            InputMode::Editing => match key {
                KeyCode::Enter => {
                    self.input_mode = InputMode::Normal;
                    Action::Nothing
                },
                KeyCode::Esc => {
                    self.input_mode = InputMode::Normal;
                    self.search_query = String::new();
                    Action::Nothing
                },
                KeyCode::Backspace => {
                    self.search_query.pop();
                    Action::Nothing
                },
                KeyCode::Char(c) => {
                    self.search_query.push(c);
                    Action::Nothing
                },
                _ => Action::Nothing,
            },
            InputMode::Details => match key {
                KeyCode::Esc | KeyCode::Enter | KeyCode::Backspace => {
                    self.input_mode = InputMode::Normal;
                    self.selected_pid = None;
                    Action::Nothing
                },
                _ => Action::Nothing,
            },
        }
    }

    /// Handles a keyboard event. Only a press is acted on: a repeat or a release
    /// changes nothing and asks for nothing.
    pub fn handle_key_event(&mut self, key: KeyCode, kind: KeyEventKind) -> (action: Action)
        ensures
            kind == KeyEventKind::Press ==> final(self)@ == old(self)@.after_key(key) && action
                == old(self)@.action_of(key),
            kind != KeyEventKind::Press ==> final(self)@ == old(self)@ && action == Action::Nothing,
            old(self)@.wf() ==> final(self)@.wf(),
    {
        match kind {
            KeyEventKind::Press => self.handle_key(key),
            _ => Action::Nothing,
        }
    }
}

/// What can happen to a monitor.
pub enum Event {
    /// A key was pressed.
    Key(KeyCode),
    /// A tick brought a snapshot.
    Tick(Snapshot),
}

/// The state after one event.
pub open spec fn step(state: AppState, event: Event) -> AppState {
    match event {
        Event::Key(key) => state.after_key(key),
        Event::Tick(snapshot) => state.after_tick(snapshot),
    }
}

/// The state after a run of events, first to last.
pub open spec fn run(state: AppState, events: Seq<Event>) -> AppState
    decreases events.len(),
{
    if events.len() == 0 {
        state
    } else {
        step(run(state, events.drop_last()), events.last())
    }
}

/// The filter key in normal mode opens the query for editing and puts the cursor on
/// the first position, wherever it was.
pub proof fn lemma_filter_key_resets_cursor(state: AppState)
    requires
        state.input_mode == InputMode::Normal,
    ensures
        state.after_key(KeyCode::Char('/')).input_mode == InputMode::Editing,
        state.after_key(KeyCode::Char('/')).cursor == Cursor::at(0),
{
}

/// Escape leaves the editing of the query and clears it; the confirm key leaves the
/// editing and keeps the query as it was typed.
pub proof fn lemma_leaving_the_query(state: AppState)
    requires
        state.input_mode == InputMode::Editing,
    ensures
        state.after_key(KeyCode::Esc).input_mode == InputMode::Normal,
        state.after_key(KeyCode::Esc).search_query == Seq::<char>::empty(),
        state.after_key(KeyCode::Enter).input_mode == InputMode::Normal,
        state.after_key(KeyCode::Enter).search_query == state.search_query,
{
}

/// A monitor starts in a state that is well formed.
pub proof fn lemma_initial_wf()
    ensures
        AppState::initial().wf(),
{
}

/// Handling a key keeps the state well formed.
pub proof fn lemma_key_keeps_wf(state: AppState, key: KeyCode)
    requires
        state.wf(),
    ensures
        state.after_key(key).wf(),
{
}

/// A process that the snapshot of a tick no longer holds is not in the view after that
/// tick, whatever was asked of it before.
pub proof fn lemma_departed_process_is_gone(state: AppState, snapshot: Snapshot, pid: u32)
    requires
        forall|j: int| 0 <= j < snapshot.processes@.len() ==> snapshot.processes@[j].pid != pid,
    ensures
        forall|i: int|
            0 <= i < state.after_tick(snapshot).processes.len() ==> (
            #[trigger] state.after_tick(snapshot).processes[i]).pid != pid,
{
    let table = snapshot.processes@;
    let view = state.after_tick(snapshot).processes;
    lemma_view_entries_come_from_table(table, state.search_query);
    assert forall|i: int| 0 <= i < view.len() implies (#[trigger] view[i]).pid != pid by {
        let j: int = choose|j: int| 0 <= j < table.len() && table[j] == view[i];
        assert(table[j].pid != pid);
    }
}

/// A second tick with the same snapshot shows the same view with the cursor on the
/// same position.
pub proof fn lemma_tick_twice_same_view(state: AppState, snapshot: Snapshot)
    ensures
        state.after_tick(snapshot).after_tick(snapshot).processes == state.after_tick(
            snapshot,
        ).processes,
        state.after_tick(snapshot).after_tick(snapshot).cursor == state.after_tick(
            snapshot,
        ).cursor,
{
}

/// A tick keeps the state well formed, however the length of the view changes: the
/// cursor is on an entry of the new view, or absent where the view is empty.
pub proof fn lemma_tick_keeps_wf(state: AppState, snapshot: Snapshot)
    requires
        state.wf(),
    ensures
        state.after_tick(snapshot).wf(),
        state.after_tick(snapshot).processes.len() == 0 ==> state.after_tick(
            snapshot,
        ).cursor.index.is_none(),
        state.cursor.index.is_none() && state.after_tick(snapshot).processes.len() > 0
            ==> state.after_tick(snapshot).cursor == Cursor::at(0),
{
    let table = snapshot.processes@;
    let query = state.search_query;
    assert(table.len() <= usize::MAX) by {
        vstd::std_specs::vec::axiom_spec_len(&snapshot.processes);
    }
    if query.len() > 0 {
        lemma_view_with_query(table, query);
    }
}

/// Every state that a run of events reaches from a well-formed one is well formed. In
/// particular the cursor points at an entry of the view whenever the view has one.
pub proof fn lemma_run_keeps_wf(state: AppState, events: Seq<Event>)
    requires
        state.wf(),
    ensures
        run(state, events).wf(),
    decreases events.len(),
{
    if events.len() > 0 {
        lemma_run_keeps_wf(state, events.drop_last());
        let before = run(state, events.drop_last());
        match events.last() {
            Event::Key(key) => lemma_key_keeps_wf(before, key),
            Event::Tick(snapshot) => lemma_tick_keeps_wf(before, snapshot),
        }
    }
}

} // verus!
