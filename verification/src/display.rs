//! What the screen says and which colours it uses, as far as that depends on the
//! monitor's state.

use crate::input::InputMode;
use crate::theme::{Color, Theme};
use vstd::prelude::*;
use vstd::string::StringExecFns;

verus! {

/// The CPU load, in percent, above which the gauge turns to its warning colour.
pub const CPU_HIGH: u64 = 80;

/// The title of the process table: a fixed one while no query narrows the view, and
/// the query in quotes otherwise.
pub fn table_title(query: &str) -> (title: String)
    ensures
        query@.len() == 0 ==> title@ == " Top Processes (Enter to Inspect) "@,
        query@.len() > 0 ==> title@ == " Search: '"@ + query@ + "' "@,
{
    if query.is_empty() {
        String::from_str(" Top Processes (Enter to Inspect) ")
    } else {
        let mut title = String::from_str(" Search: '");
        title.append(query);
        title.append("' ");
        title
    }
}

/// The line in the filter box: the query with a caret while it is edited, and with a
/// hint at the filter key otherwise.
pub fn search_text(mode: InputMode, query: &str) -> (line: String)
    ensures
        mode == InputMode::Editing ==> line@ == "Search: "@ + query@ + "_"@,
        mode != InputMode::Editing ==> line@ == "Search: "@ + query@ + " (Press '/')"@,
{
    let mut line = String::from_str("Search: ");
    line.append(query);
    match mode {
        InputMode::Editing => line.append("_"),
        _ => line.append(" (Press '/')"),
    }
    line
}

/// The colour of the filter box: the theme's highlight while the query is edited, and
/// dark grey otherwise.
pub fn filter_color(theme: &Theme, mode: InputMode) -> (color: Color)
    ensures
        color == if mode == InputMode::Editing {
            theme.highlight_bg
        } else {
            Color::DarkGray
        },
{
    match mode {
        InputMode::Editing => theme.highlight_bg,
        _ => Color::DarkGray,
    }
}

/// The colour of the CPU gauge: the warning colour above `CPU_HIGH` percent, the calm
/// one up to it.
pub fn cpu_gauge_color(theme: &Theme, cpu_percent: u64) -> (color: Color)
    ensures
        color == if cpu_percent > CPU_HIGH {
            theme.gauge_cpu_high
        } else {
            theme.gauge_cpu_low
        },
{
    if cpu_percent > CPU_HIGH {
        theme.gauge_cpu_high
    } else {
        theme.gauge_cpu_low
    }
}

} // verus!
