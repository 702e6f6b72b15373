//! The texts and numbers that the screen is drawn from: the header, the panel
//! titles, how far each panel can scroll, and the help.
use vstd::prelude::*;
use crate::app::{filter_label, focus_label, layout_label, App, AppView};
use crate::text::{decimal, decimal_string, join2, join3, owned};
use crate::units::strings_view;

verus! {

broadcast use vstd::string::group_string_axioms;

/// The two header lines: connection, unit count, filters, focus and layout,
/// then the time of the last refresh and the status.
pub open spec fn header_spec(s: AppView) -> Seq<char> {
    " systemd-tui  conn:"@ + s.connection_label + "  units:"@ + decimal(s.units.len()) + "  state:"@
        + filter_label(s.state_filter) + "  filter:"@ + (if s.name_filter.len() == 0 {
        "-"@
    } else {
        s.name_filter
    }) + (if s.filter_input_mode {
        " [input]"@
    } else {
        ""@
    }) + "  focus:"@ + focus_label(s.focus_block) + "  layout:"@ + layout_label(s.layout_mode)
        + " \n updated:"@ + s.last_updated_at + "  status:"@ + s.status + " "@
}

/// The header text of the browser.
pub fn header_text(app: &App) -> (r: String)
    ensures
        r@ == header_spec(app@),
{
    let mut r = owned(" systemd-tui  conn:");
    r.append(app.connection_label());
    r.append("  units:");
    let count = decimal_string(app.units().len() as u64);
    r.append(count.as_str());
    r.append("  state:");
    r.append(app.state_filter_label());
    r.append("  filter:");
    let filter = app.name_filter();
    if filter.is_empty() {
        r.append("-");
    } else {
        r.append(filter);
    }
    if app.filter_input_mode() {
        r.append(" [input]");
    } else {
        r.append("");
    }
    r.append("  focus:");
    r.append(app.focus_block().label());
    r.append("  layout:");
    r.append(app.layout_mode().label());
    r.append(" \n updated:");
    r.append(app.last_updated_at());
    r.append("  status:");
    r.append(app.status());
    r.append(" ");
    proof {
        reveal_strlit("-");
    }
    r
}

/// The furthest a panel of the given height (borders included) can scroll
/// through `line_count` lines, truncated to 16 bits as the drawing code does.
pub open spec fn max_scroll_spec(line_count: nat, area_height: u16) -> u16 {
    let visible: int = if area_height < 2 {
        0
    } else {
        area_height - 2
    };
    let rest: int = if line_count < visible {
        0
    } else {
        line_count - visible
    };
    (rest % 65536) as u16
}

/// How far a panel can scroll.
pub fn panel_max_scroll(line_count: usize, area_height: u16) -> (r: u16)
    ensures
        r == max_scroll_spec(line_count as nat, area_height),
{
    let visible = area_height.saturating_sub(2) as usize;
    let rest = line_count.saturating_sub(visible);
    (rest % 65536) as u16
}

/// "<name>[ *] <scroll>/<max>": a panel title with its position; the star marks focus.
pub open spec fn position_title(name: Seq<char>, focused: bool, scroll: u16, max: u16) -> Seq<
    char,
> {
    name + (if focused {
        " * "@
    } else {
        " "@
    }) + decimal(scroll as nat) + "/"@ + decimal(max as nat)
}

fn position_title_exec(name: &str, focused: bool, scroll: u16, max: u16) -> (r: String)
    ensures
        r@ == position_title(name@, focused, scroll, max),
{
    let mut r = owned(name);
    if focused {
        r.append(" * ");
    } else {
        r.append(" ");
    }
    let s = decimal_string(scroll as u64);
    r.append(s.as_str());
    r.append("/");
    let m = decimal_string(max as u64);
    r.append(m.as_str());
    r
}

/// The title of the details panel.
pub fn details_title(focused: bool, scroll: u16, max: u16) -> (r: String)
    ensures
        r@ == position_title("Details"@, focused, scroll, max),
{
    position_title_exec("Details", focused, scroll, max)
}

/// The title of the logs panel; " [follow]" is added while following.
pub fn logs_title(focused: bool, scroll: u16, max: u16, follow: bool) -> (r: String)
    ensures
        r@ == position_title("Logs"@, focused, scroll, max) + if follow {
            " [follow]"@
        } else {
            ""@
        },
{
    let mut r = position_title_exec("Logs", focused, scroll, max);
    if follow {
        r.append(" [follow]");
    } else {
        r.append("");
    }
    r
}

/// The title of the unit table: "Units[ *] (<visible count>)".
pub fn units_title(focused: bool, count: usize) -> (r: String)
    ensures
        r@ == "Units"@ + (if focused {
            " * ("@
        } else {
            " ("@
        }) + decimal(count as nat) + ")"@,
{
    let n = decimal_string(count as u64);
    let head = if focused {
        "Units * ("
    } else {
        "Units ("
    };
    proof {
        reveal_strlit("Units * (");
        reveal_strlit("Units (");
        reveal_strlit("Units");
        reveal_strlit(" * (");
        reveal_strlit(" (");
        assert("Units * ("@ =~= "Units"@ + " * ("@);
        assert("Units ("@ =~= "Units"@ + " ("@);
    }
    join3(head, n.as_str(), ")")
}

/// The title of the help: "Help  scroll:<scroll>/<max>".
pub fn help_title(scroll: u16, max: u16) -> (r: String)
    ensures
        r@ == "Help  scroll:"@ + decimal(scroll as nat) + "/"@ + decimal(max as nat),
{
    let s = decimal_string(scroll as u64);
    let m = decimal_string(max as u64);
    let head = join3("Help  scroll:", s.as_str(), "/");
    join2(head.as_str(), m.as_str())
}

/// A scroll offset held within the furthest one.
pub fn clamp_scroll(scroll: u16, max: u16) -> (r: u16)
    ensures
        r == if scroll < max {
            scroll
        } else {
            max
        },
{
    if scroll < max {
        scroll
    } else {
        max
    }
}

/// The margins around a centred area taking `percent` of a side: the
/// percentages before, of, and after it.
pub fn centered_percentages(percent: u16) -> (r: (u16, u16, u16))
    requires
        percent <= 100,
    ensures
        r.0 == (100 - percent) / 2,
        r.1 == percent,
        r.2 == (100 - percent) / 2,
{
    let margin = (100 - percent) / 2;
    (margin, percent, margin)
}

/// The text of the help.
pub open spec fn help_spec() -> Seq<Seq<char>> {
    seq![
        "systemd-tui keymap"@,
        ""@,
        "Navigation:"@,
        "  Tab / Shift+Tab Focus next/prev block"@,
        "  ↑/k, ↓/j      Scroll focused block"@,
        "  g / G          Top / bottom of focused block"@,
        ""@,
        "Unit actions (selected unit):"@,
        "  s              Start"@,
        "  t              Stop"@,
        "  R              Restart"@,
        "  L              Reload"@,
        "  r              Refresh now"@,
        ""@,
        "Filtering:"@,
        "  /              Name filter input mode"@,
        "  F2             Cycle state filter (all/active/inactive/failed)"@,
        "  F3             Toggle horizontal / vertical layout"@,
        ""@,
        "General:"@,
        "  h / F1         Toggle this help"@,
        "  q              Quit (when help closed)"@,
        ""@,
        "Scroll (focused block or help):"@,
        "  ↑/↓ or j/k     Scroll 1 line"@,
        "  PgUp/PgDn      Scroll 8 lines"@,
        "  g / G          Top / bottom"@,
        ""@,
        "Close help: Esc, h, F1, q"@,
    ]
}

/// The lines of the help.
pub fn help_lines() -> (r: Vec<String>)
    ensures
        strings_view(r@) == help_spec(),
{
    let mut r: Vec<String> = Vec::new();
    r.push(owned("systemd-tui keymap"));
    r.push(owned(""));
    r.push(owned("Navigation:"));
    r.push(owned("  Tab / Shift+Tab Focus next/prev block"));
    r.push(owned("  ↑/k, ↓/j      Scroll focused block"));
    r.push(owned("  g / G          Top / bottom of focused block"));
    r.push(owned(""));
    r.push(owned("Unit actions (selected unit):"));
    r.push(owned("  s              Start"));
    r.push(owned("  t              Stop"));
    r.push(owned("  R              Restart"));
    r.push(owned("  L              Reload"));
    r.push(owned("  r              Refresh now"));
    r.push(owned(""));
    r.push(owned("Filtering:"));
    r.push(owned("  /              Name filter input mode"));
    r.push(owned("  F2             Cycle state filter (all/active/inactive/failed)"));
    r.push(owned("  F3             Toggle horizontal / vertical layout"));
    r.push(owned(""));
    r.push(owned("General:"));
    r.push(owned("  h / F1         Toggle this help"));
    r.push(owned("  q              Quit (when help closed)"));
    r.push(owned(""));
    r.push(owned("Scroll (focused block or help):"));
    r.push(owned("  ↑/↓ or j/k     Scroll 1 line"));
    r.push(owned("  PgUp/PgDn      Scroll 8 lines"));
    r.push(owned("  g / G          Top / bottom"));
    r.push(owned(""));
    r.push(owned("Close help: Esc, h, F1, q"));
    assert(strings_view(r@) =~= help_spec());
    r
}

} // verus!

