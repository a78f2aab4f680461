use term_dash::app::{App, HISTORY_LEN};
use term_dash::input::{Action, InputMode, KeyCode, KeyEventKind};
use term_dash::process::ProcessInfo;
use term_dash::snapshot::{NetInfo, Snapshot};
use term_dash::theme::ThemePreset;

fn entry(pid: u32, name: &str, cpu: u32) -> ProcessInfo {
    ProcessInfo { pid, name: name.to_string(), cpu, memory: 64 }
}

fn snapshot_of(processes: Vec<ProcessInfo>) -> Snapshot {
    Snapshot { cpu_percent: 0, mem_percent: 0, interfaces: Vec::new(), processes }
}

fn three() -> Vec<ProcessInfo> {
    vec![entry(1, "a", 5), entry(2, "b", 50), entry(3, "ab", 10)]
}

fn pids(app: &App) -> Vec<u32> {
    app.processes().iter().map(|p| p.pid).collect()
}

fn type_text(app: &mut App, text: &str) {
    for c in text.chars() {
        assert_eq!(app.handle_key(KeyCode::Char(c)), Action::Nothing);
    }
}

#[test]
fn monitor_starts_idle() {
    let app = App::new();
    assert_eq!(HISTORY_LEN, 100);
    assert_eq!(app.cpu_history().to_vec(), vec![0; 100]);
    assert_eq!(app.mem_history().to_vec(), vec![0; 100]);
    assert_eq!(app.net_rx_history().to_vec(), vec![0; 100]);
    assert_eq!(app.net_tx_history().to_vec(), vec![0; 100]);
    assert!(!app.should_quit());
    assert_eq!(app.selected(), None);
    assert!(app.processes().is_empty());
    assert_eq!(app.input_mode(), InputMode::Normal);
    assert_eq!(app.search_query(), "");
    assert_eq!(app.selected_pid(), None);
    assert_eq!(app.current_theme(), ThemePreset::Default);
}

#[test]
fn tick_feeds_every_history() {
    let mut app = App::new();
    app.on_tick(Snapshot {
        cpu_percent: 12,
        mem_percent: 34,
        interfaces: vec![
            NetInfo { received: 100, transmitted: 7 },
            NetInfo { received: 23, transmitted: 1 },
        ],
        processes: Vec::new(),
    });
    assert_eq!(app.cpu_history().latest(), 12);
    assert_eq!(app.mem_history().latest(), 34);
    assert_eq!(app.net_rx_history().latest(), 123);
    assert_eq!(app.net_tx_history().latest(), 8);
    assert_eq!(app.cpu_history().len(), HISTORY_LEN);
    app.on_tick(Snapshot { cpu_percent: 13, mem_percent: 35, interfaces: Vec::new(), processes: Vec::new() });
    let cpu = app.cpu_history().to_vec();
    assert_eq!(cpu[98..], [12, 13]);
    assert_eq!(cpu[..98], [0; 98]);
    assert_eq!(app.net_rx_history().to_vec()[98..], [123, 0]);
}

#[test]
fn histories_keep_their_length_through_many_ticks() {
    let mut app = App::new();
    for tick in 0..250u64 {
        app.on_tick(Snapshot { cpu_percent: tick, mem_percent: 2 * tick, interfaces: Vec::new(), processes: Vec::new() });
        assert_eq!(app.cpu_history().len(), HISTORY_LEN);
        assert_eq!(app.mem_history().len(), HISTORY_LEN);
        assert_eq!(app.net_rx_history().len(), HISTORY_LEN);
        assert_eq!(app.net_tx_history().len(), HISTORY_LEN);
    }
    let expected: Vec<u64> = (150..250).collect();
    assert_eq!(app.cpu_history().to_vec(), expected);
}

#[test]
fn tick_builds_the_view_and_selects_the_first_entry() {
    let mut app = App::new();
    app.on_tick(snapshot_of(three()));
    assert_eq!(pids(&app), vec![2, 3, 1]);
    assert_eq!(app.selected(), Some(0));
}

#[test]
fn navigation_keys_move_and_wrap() {
    let mut app = App::new();
    app.on_tick(snapshot_of(three()));
    assert_eq!(app.handle_key(KeyCode::Down), Action::Nothing);
    assert_eq!(app.selected(), Some(1));
    app.handle_key(KeyCode::Char('j'));
    assert_eq!(app.selected(), Some(2));
    app.handle_key(KeyCode::Down);
    assert_eq!(app.selected(), Some(0));
    app.handle_key(KeyCode::Up);
    assert_eq!(app.selected(), Some(2));
    app.handle_key(KeyCode::Char('k'));
    assert_eq!(app.selected(), Some(1));
    assert_eq!(app.input_mode(), InputMode::Normal);
}

#[test]
fn navigation_in_an_empty_view_does_nothing() {
    let mut app = App::new();
    app.next_process();
    assert_eq!(app.selected(), None);
    app.previous_process();
    assert_eq!(app.selected(), None);
    assert_eq!(app.kill_selected_process(), None);
    app.inspect_selected_process();
    assert_eq!(app.input_mode(), InputMode::Normal);
    assert_eq!(app.selected_pid(), None);
}

#[test]
fn quit_keys_set_the_flag() {
    let mut app = App::new();
    assert_eq!(app.handle_key(KeyCode::Char('q')), Action::Nothing);
    assert!(app.should_quit());
    let mut app = App::new();
    app.handle_key(KeyCode::Esc);
    assert!(app.should_quit());
}

#[test]
fn kill_keys_ask_to_terminate_the_selected_process() {
    let mut app = App::new();
    app.on_tick(snapshot_of(three()));
    assert_eq!(app.handle_key(KeyCode::Char('x')), Action::Terminate(2));
    app.handle_key(KeyCode::Down);
    assert_eq!(app.handle_key(KeyCode::Delete), Action::Terminate(3));
    assert_eq!(app.kill_selected_process(), Some(3));
    assert_eq!(pids(&app), vec![2, 3, 1]);
    assert_eq!(app.input_mode(), InputMode::Normal);
}

#[test]
fn kill_key_without_a_process_asks_for_nothing() {
    let mut app = App::new();
    assert_eq!(app.handle_key(KeyCode::Char('x')), Action::Nothing);
    assert_eq!(app.handle_key(KeyCode::Delete), Action::Nothing);
}

#[test]
fn terminated_process_is_gone_from_the_next_view() {
    let mut app = App::new();
    app.on_tick(snapshot_of(three()));
    app.handle_key(KeyCode::Up);
    assert_eq!(app.selected(), Some(2));
    assert_eq!(app.handle_key(KeyCode::Char('x')), Action::Terminate(1));
    app.on_tick(snapshot_of(vec![entry(2, "b", 50), entry(3, "ab", 10)]));
    assert_eq!(pids(&app), vec![2, 3]);
    assert_eq!(app.selected(), Some(1));
    app.on_tick(snapshot_of(Vec::new()));
    assert!(app.processes().is_empty());
    assert_eq!(app.selected(), None);
    app.on_tick(snapshot_of(vec![entry(9, "z", 1)]));
    assert_eq!(app.selected(), Some(0));
}

#[test]
fn process_that_survives_termination_is_shown_unchanged() {
    let mut app = App::new();
    app.on_tick(snapshot_of(three()));
    assert_eq!(app.handle_key(KeyCode::Char('x')), Action::Terminate(2));
    app.on_tick(snapshot_of(three()));
    assert_eq!(pids(&app), vec![2, 3, 1]);
    assert_eq!(app.selected(), Some(0));
}

#[test]
fn cursor_keeps_its_position_not_its_process() {
    let mut app = App::new();
    app.on_tick(snapshot_of(three()));
    app.handle_key(KeyCode::Down);
    assert_eq!(app.kill_selected_process(), Some(3));
    app.on_tick(snapshot_of(vec![entry(1, "a", 90), entry(2, "b", 50), entry(3, "ab", 10)]));
    assert_eq!(app.selected(), Some(1));
    assert_eq!(app.kill_selected_process(), Some(2));
}

#[test]
fn filter_key_resets_cursor_and_enters_editing() {
    let mut app = App::new();
    app.on_tick(snapshot_of(three()));
    app.handle_key(KeyCode::Down);
    app.handle_key(KeyCode::Down);
    assert_eq!(app.selected(), Some(2));
    assert_eq!(app.handle_key(KeyCode::Char('/')), Action::Nothing);
    assert_eq!(app.input_mode(), InputMode::Editing);
    assert_eq!(app.selected(), Some(0));
}

#[test]
fn filter_key_resets_cursor_in_an_empty_view_too() {
    let mut app = App::new();
    app.handle_key(KeyCode::Char('/'));
    assert_eq!(app.input_mode(), InputMode::Editing);
    assert_eq!(app.selected(), Some(0));
    assert_eq!(app.kill_selected_process(), None);
}

#[test]
fn editing_appends_and_removes_characters() {
    let mut app = App::new();
    app.handle_key(KeyCode::Char('/'));
    type_text(&mut app, "fox");
    assert_eq!(app.search_query(), "fox");
    app.handle_key(KeyCode::Backspace);
    assert_eq!(app.search_query(), "fo");
    app.handle_key(KeyCode::Backspace);
    app.handle_key(KeyCode::Backspace);
    assert_eq!(app.search_query(), "");
    app.handle_key(KeyCode::Backspace);
    assert_eq!(app.search_query(), "");
    assert_eq!(app.input_mode(), InputMode::Editing);
}

#[test]
fn editing_takes_command_letters_as_text() {
    let mut app = App::new();
    app.on_tick(snapshot_of(three()));
    app.handle_key(KeyCode::Char('/'));
    type_text(&mut app, "qxjkt/");
    assert_eq!(app.search_query(), "qxjkt/");
    assert!(!app.should_quit());
    assert_eq!(app.selected(), Some(0));
    assert_eq!(app.current_theme(), ThemePreset::Default);
    assert_eq!(app.input_mode(), InputMode::Editing);
}

#[test]
fn editing_ignores_other_keys() {
    let mut app = App::new();
    app.on_tick(snapshot_of(three()));
    app.handle_key(KeyCode::Char('/'));
    type_text(&mut app, "a");
    for key in [KeyCode::Up, KeyCode::Down, KeyCode::Delete, KeyCode::Other] {
        assert_eq!(app.handle_key(key), Action::Nothing);
        assert_eq!(app.search_query(), "a");
        assert_eq!(app.input_mode(), InputMode::Editing);
        assert_eq!(app.selected(), Some(0));
    }
}

#[test]
fn confirm_keeps_the_query() {
    let mut app = App::new();
    app.handle_key(KeyCode::Char('/'));
    type_text(&mut app, "ab");
    app.handle_key(KeyCode::Enter);
    assert_eq!(app.input_mode(), InputMode::Normal);
    assert_eq!(app.search_query(), "ab");
}

#[test]
fn escape_clears_the_query() {
    let mut app = App::new();
    app.handle_key(KeyCode::Char('/'));
    type_text(&mut app, "ab");
    app.handle_key(KeyCode::Esc);
    assert_eq!(app.input_mode(), InputMode::Normal);
    assert_eq!(app.search_query(), "");
    assert!(!app.should_quit());
}

#[test]
fn query_narrows_the_view_at_the_next_tick() {
    let mut app = App::new();
    app.on_tick(snapshot_of(three()));
    app.handle_key(KeyCode::Char('/'));
    type_text(&mut app, "A");
    assert_eq!(pids(&app), vec![2, 3, 1]);
    app.on_tick(snapshot_of(three()));
    assert_eq!(pids(&app), vec![3, 1]);
    assert_eq!(app.processes()[0], entry(3, "ab", 10));
    assert_eq!(app.processes()[1], entry(1, "a", 5));
    app.handle_key(KeyCode::Esc);
    app.on_tick(snapshot_of(three()));
    assert_eq!(pids(&app), vec![2, 3, 1]);
}

#[test]
fn cursor_is_clamped_when_the_query_shrinks_the_view() {
    let mut app = App::new();
    app.on_tick(snapshot_of(three()));
    app.handle_key(KeyCode::Up);
    assert_eq!(app.selected(), Some(2));
    app.handle_key(KeyCode::Char('/'));
    type_text(&mut app, "b");
    app.handle_key(KeyCode::Enter);
    app.handle_key(KeyCode::Up);
    assert_eq!(app.selected(), Some(2));
    app.on_tick(snapshot_of(three()));
    assert_eq!(pids(&app), vec![2, 3]);
    assert_eq!(app.selected(), Some(1));
}

#[test]
fn confirm_key_opens_the_inspector() {
    let mut app = App::new();
    app.on_tick(snapshot_of(three()));
    app.handle_key(KeyCode::Down);
    assert_eq!(app.handle_key(KeyCode::Enter), Action::Nothing);
    assert_eq!(app.input_mode(), InputMode::Details);
    assert_eq!(app.selected_pid(), Some(3));
}

#[test]
fn confirm_key_without_a_process_stays_in_normal_mode() {
    let mut app = App::new();
    app.handle_key(KeyCode::Enter);
    assert_eq!(app.input_mode(), InputMode::Normal);
    assert_eq!(app.selected_pid(), None);
}

#[test]
fn inspector_closes_on_escape_confirm_and_backspace() {
    for key in [KeyCode::Esc, KeyCode::Enter, KeyCode::Backspace] {
        let mut app = App::new();
        app.on_tick(snapshot_of(three()));
        app.inspect_selected_process();
        assert_eq!(app.input_mode(), InputMode::Details);
        assert_eq!(app.selected_pid(), Some(2));
        assert_eq!(app.handle_key(key), Action::Nothing);
        assert_eq!(app.input_mode(), InputMode::Normal);
        assert_eq!(app.selected_pid(), None);
        assert!(!app.should_quit());
    }
}

#[test]
fn inspector_ignores_other_keys() {
    let mut app = App::new();
    app.on_tick(snapshot_of(three()));
    app.handle_key(KeyCode::Enter);
    for key in [KeyCode::Char('q'), KeyCode::Char('x'), KeyCode::Down, KeyCode::Up, KeyCode::Delete, KeyCode::Char('/'), KeyCode::Other] {
        assert_eq!(app.handle_key(key), Action::Nothing);
        assert_eq!(app.input_mode(), InputMode::Details);
        assert_eq!(app.selected_pid(), Some(2));
        assert_eq!(app.selected(), Some(0));
        assert!(!app.should_quit());
    }
}

#[test]
fn inspector_survives_a_tick_that_lost_its_process() {
    let mut app = App::new();
    app.on_tick(snapshot_of(three()));
    app.handle_key(KeyCode::Enter);
    app.on_tick(snapshot_of(vec![entry(1, "a", 5)]));
    assert_eq!(app.input_mode(), InputMode::Details);
    assert_eq!(app.selected_pid(), Some(2));
    assert_eq!(pids(&app), vec![1]);
}

#[test]
fn theme_key_cycles_the_themes() {
    let mut app = App::new();
    app.handle_key(KeyCode::Char('t'));
    assert_eq!(app.current_theme(), ThemePreset::Cyberpunk);
    app.handle_key(KeyCode::Char('t'));
    assert_eq!(app.current_theme(), ThemePreset::Matrix);
    app.handle_key(KeyCode::Char('t'));
    assert_eq!(app.current_theme(), ThemePreset::Default);
}

#[test]
fn normal_mode_ignores_unlisted_keys() {
    let mut app = App::new();
    app.on_tick(snapshot_of(three()));
    for key in [KeyCode::Backspace, KeyCode::Char('z'), KeyCode::Char('Q'), KeyCode::Other] {
        assert_eq!(app.handle_key(key), Action::Nothing);
        assert_eq!(app.input_mode(), InputMode::Normal);
        assert_eq!(app.selected(), Some(0));
        assert_eq!(app.search_query(), "");
        assert!(!app.should_quit());
    }
}

#[test]
fn only_a_press_is_acted_on() {
    let mut app = App::new();
    app.on_tick(snapshot_of(three()));
    assert_eq!(app.handle_key_event(KeyCode::Char('x'), KeyEventKind::Release), Action::Nothing);
    assert_eq!(app.handle_key_event(KeyCode::Char('x'), KeyEventKind::Repeat), Action::Nothing);
    assert_eq!(app.handle_key_event(KeyCode::Down, KeyEventKind::Release), Action::Nothing);
    assert_eq!(app.handle_key_event(KeyCode::Char('q'), KeyEventKind::Repeat), Action::Nothing);
    assert_eq!(app.selected(), Some(0));
    assert!(!app.should_quit());
    assert_eq!(app.handle_key_event(KeyCode::Char('x'), KeyEventKind::Press), Action::Terminate(2));
    assert_eq!(app.handle_key_event(KeyCode::Down, KeyEventKind::Press), Action::Nothing);
    assert_eq!(app.selected(), Some(1));
}

#[test]
fn cursor_is_on_an_entry_whenever_there_is_one() {
    let mut app = App::new();
    let keys = [
        KeyCode::Down, KeyCode::Up, KeyCode::Up, KeyCode::Char('/'), KeyCode::Char('a'),
        KeyCode::Enter, KeyCode::Down, KeyCode::Down, KeyCode::Enter, KeyCode::Esc,
        KeyCode::Char('/'), KeyCode::Esc, KeyCode::Up, KeyCode::Char('x'), KeyCode::Down,
    ];
    let tables = [3usize, 60, 0, 1, 7, 2, 0, 55];
    for (round, size) in tables.iter().enumerate() {
        let table: Vec<ProcessInfo> =
            (0..*size as u32).map(|i| entry(i, if i % 2 == 0 { "a" } else { "b" }, i % 5)).collect();
        app.on_tick(snapshot_of(table));
        for key in keys.iter().cycle().skip(round).take(9) {
            app.handle_key(*key);
            let len = app.processes().len();
            if len > 0 {
                assert!(app.selected().unwrap() < len);
            }
        }
    }
}
