//! The interactive state of the unit browser and every decision it takes on a
//! key press, a refreshed unit list, fetched logs or the outcome of an action.
//! The caller performs the I/O that a decision asks for and hands back the result.
use vstd::prelude::*;
use crate::actions::{action_label, UnitAction};
use crate::text::{
    chars_of, contains_chars, contains_seq, join2, join3, lowercase, opt_string_eq, opt_view,
    owned, pop_char, push_char, to_lowercase,
};
use crate::units::{
    sort_units_by_name, sorted_by_name, strings_view, unit_details, units_view, SystemdUnit,
    UnitActiveState, UnitView,
};

verus! {

broadcast use vstd::string::group_string_axioms;

/// Which units the state filter lets through.
#[derive(Debug, Clone, Copy, PartialEq, Eq, Structural)]
pub enum StateFilter {
    All,
    Active,
    Inactive,
    Failed,
}

/// The panel that scrolling keys act on.
#[derive(Debug, Clone, Copy, PartialEq, Eq, Structural)]
pub enum FocusBlock {
    Units,
    Details,
    Logs,
}

/// How the unit table and the side panels are arranged.
#[derive(Debug, Clone, Copy, PartialEq, Eq, Structural)]
pub enum LayoutMode {
    Horizontal,
    Vertical,
}

/// The panel after `f`: units, details, logs, then units again.
pub open spec fn focus_next(f: FocusBlock) -> FocusBlock {
    match f {
        FocusBlock::Units => FocusBlock::Details,
        FocusBlock::Details => FocusBlock::Logs,
        FocusBlock::Logs => FocusBlock::Units,
    }
}

/// The panel before `f`.
pub open spec fn focus_prev(f: FocusBlock) -> FocusBlock {
    match f {
        FocusBlock::Units => FocusBlock::Logs,
        FocusBlock::Details => FocusBlock::Units,
        FocusBlock::Logs => FocusBlock::Details,
    }
}

/// A panel's name in the header.
pub open spec fn focus_label(f: FocusBlock) -> Seq<char> {
    match f {
        FocusBlock::Units => "units"@,
        FocusBlock::Details => "details"@,
        FocusBlock::Logs => "logs"@,
    }
}

/// The other arrangement.
pub open spec fn layout_toggled(l: LayoutMode) -> LayoutMode {
    match l {
        LayoutMode::Horizontal => LayoutMode::Vertical,
        LayoutMode::Vertical => LayoutMode::Horizontal,
    }
}

/// An arrangement's name in the header.
pub open spec fn layout_label(l: LayoutMode) -> Seq<char> {
    match l {
        LayoutMode::Horizontal => "horizontal"@,
        LayoutMode::Vertical => "vertical"@,
    }
}

/// The next state filter: all, active, inactive, failed, then all again.
pub open spec fn filter_cycled(f: StateFilter) -> StateFilter {
    match f {
        StateFilter::All => StateFilter::Active,
        StateFilter::Active => StateFilter::Inactive,
        StateFilter::Inactive => StateFilter::Failed,
        StateFilter::Failed => StateFilter::All,
    }
}

/// A state filter's name in the header.
pub open spec fn filter_label(f: StateFilter) -> Seq<char> {
    match f {
        StateFilter::All => "all"@,
        StateFilter::Active => "active"@,
        StateFilter::Inactive => "inactive"@,
        StateFilter::Failed => "failed"@,
    }
}

impl FocusBlock {
    /// The panel after this one.
    pub fn next(self) -> (r: Self)
        ensures
            r == focus_next(self),
    {
        match self {
            FocusBlock::Units => FocusBlock::Details,
            FocusBlock::Details => FocusBlock::Logs,
            FocusBlock::Logs => FocusBlock::Units,
        }
    }

    /// The panel before this one.
    pub fn prev(self) -> (r: Self)
        ensures
            r == focus_prev(self),
    {
        match self {
            FocusBlock::Units => FocusBlock::Logs,
            FocusBlock::Details => FocusBlock::Units,
            FocusBlock::Logs => FocusBlock::Details,
        }
    }

    /// The panel's name in the header.
    pub fn label(self) -> (r: &'static str)
        ensures
            r@ == focus_label(self),
    {
        match self {
            FocusBlock::Units => "units",
            FocusBlock::Details => "details",
            FocusBlock::Logs => "logs",
        }
    }
}

impl LayoutMode {
    /// The other arrangement.
    pub fn toggle(self) -> (r: Self)
        ensures
            r == layout_toggled(self),
    {
        match self {
            LayoutMode::Horizontal => LayoutMode::Vertical,
            LayoutMode::Vertical => LayoutMode::Horizontal,
        }
    }

    /// The arrangement's name in the header.
    pub fn label(self) -> (r: &'static str)
        ensures
            r@ == layout_label(self),
    {
        match self {
            LayoutMode::Horizontal => "horizontal",
            LayoutMode::Vertical => "vertical",
        }
    }
}

impl StateFilter {
    /// The next filter in the order all, active, inactive, failed.
    pub fn cycle(self) -> (r: Self)
        ensures
            r == filter_cycled(self),
    {
        match self {
            StateFilter::All => StateFilter::Active,
            StateFilter::Active => StateFilter::Inactive,
            StateFilter::Inactive => StateFilter::Failed,
            StateFilter::Failed => StateFilter::All,
        }
    }

    /// The filter's name in the header.
    pub fn label(self) -> (r: &'static str)
        ensures
            r@ == filter_label(self),
    {
        match self {
            StateFilter::All => "all",
            StateFilter::Active => "active",
            StateFilter::Inactive => "inactive",
            StateFilter::Failed => "failed",
        }
    }
}

/// Whether a unit in the given active state passes the state filter.
pub open spec fn state_filter_matches(f: StateFilter, a: UnitActiveState) -> bool {
    match f {
        StateFilter::All => true,
        StateFilter::Active => a == UnitActiveState::Active,
        StateFilter::Inactive => a == UnitActiveState::Inactive,
        StateFilter::Failed => a == UnitActiveState::Failed,
    }
}

/// Whether a unit in active state `a` is visible given its lowercased name and
/// description: it passes the state filter, and the lowercased needle is empty
/// or occurs in the name or the description.
pub open spec fn visible_by_lowered(
    name_lower: Seq<char>,
    description_lower: Seq<char>,
    needle_lower: Seq<char>,
    f: StateFilter,
    a: UnitActiveState,
) -> bool {
    &&& state_filter_matches(f, a)
    &&& (needle_lower.len() == 0 || contains_seq(name_lower, needle_lower) || contains_seq(
        description_lower,
        needle_lower,
    ))
}

/// Whether a unit is visible: it passes the state filter, and the lowercased
/// needle is empty or occurs in its lowercased name or description.
pub open spec fn unit_matches(u: UnitView, needle: Seq<char>, f: StateFilter) -> bool {
    visible_by_lowered(lowercase(u.name), lowercase(u.description), needle, f, u.active_state)
}

/// The positions among the first `n` units of those that are visible, ascending.
pub open spec fn matching_indices(
    units: Seq<UnitView>,
    needle: Seq<char>,
    f: StateFilter,
    n: nat,
) -> Seq<usize>
    decreases n,
{
    if n == 0 {
        seq![]
    } else {
        let before = matching_indices(units, needle, f, (n - 1) as nat);
        if unit_matches(units[n - 1], needle, f) {
            before.push((n - 1) as usize)
        } else {
            before
        }
    }
}

/// The positions of the visible units under a name filter and a state filter.
pub open spec fn filtered_indices_for(
    units: Seq<UnitView>,
    name_filter: Seq<char>,
    f: StateFilter,
) -> Seq<usize> {
    matching_indices(units, lowercase(name_filter), f, units.len())
}

/// A selection index held within `len` visible rows.
pub open spec fn clamp_spec(selected: int, len: int) -> int {
    if len <= 0 {
        0
    } else if selected < len - 1 {
        selected
    } else {
        len - 1
    }
}

/// The first visible row, from row `v` on, whose unit has the given name.
pub open spec fn find_named(
    units: Seq<UnitView>,
    filtered: Seq<usize>,
    name: Seq<char>,
    v: nat,
) -> Option<nat>
    decreases filtered.len() - v,
{
    if v >= filtered.len() {
        None
    } else if filtered[v as int] < units.len() && units[filtered[v as int] as int].name == name {
        Some(v)
    } else {
        find_named(units, filtered, name, v + 1)
    }
}

/// The row to select after the list changed: the first visible row of the unit
/// with the remembered name, or else the old row held within the visible rows.
pub open spec fn restore_spec(
    units: Seq<UnitView>,
    filtered: Seq<usize>,
    name: Seq<char>,
    fallback: int,
) -> int {
    match find_named(units, filtered, name, 0) {
        Some(v) => v as int,
        None => clamp_spec(fallback, filtered.len() as int),
    }
}

/// The scroll offset of the logs panel: the bottom while following, else the
/// remembered offset held within the bottom.
pub open spec fn effective_scroll_spec(logs_scroll: u16, follow: bool, max_scroll: u16) -> u16 {
    if follow {
        max_scroll
    } else if logs_scroll < max_scroll {
        logs_scroll
    } else {
        max_scroll
    }
}

} // verus!

verus! {

/// A key press, as the browser distinguishes them.
#[derive(Debug, Clone, Copy, PartialEq, Eq, Structural)]
pub enum Key {
    Char(char),
    F(u8),
    Tab,
    BackTab,
    Up,
    Down,
    PageUp,
    PageDown,
    Esc,
    Enter,
    Backspace,
    Other,
}

/// Work that a key press asks the caller to do against systemd.
pub enum Effect {
    /// Nothing to do.
    Nothing,
    /// Fetch the unit list again and hand it to `App::apply_units`.
    RefreshUnits,
    /// Run an action on the named unit, then report with `App::finish_unit_action`.
    RunAction { action: UnitAction, unit_name: String },
}

/// An `Effect`, with the unit name as characters.
pub enum EffectView {
    Nothing,
    RefreshUnits,
    RunAction { action: UnitAction, unit_name: Seq<char> },
}

impl View for Effect {
    type V = EffectView;

    open spec fn view(&self) -> EffectView {
        match self {
            Effect::Nothing => EffectView::Nothing,
            Effect::RefreshUnits => EffectView::RefreshUnits,
            Effect::RunAction { action, unit_name } => EffectView::RunAction {
                action: *action,
                unit_name: unit_name@,
            },
        }
    }
}

/// The state of the unit browser.
pub struct App {
    units: Vec<SystemdUnit>,
    filtered_indices: Vec<usize>,
    selected: usize,
    name_filter: String,
    filter_input_mode: bool,
    state_filter: StateFilter,
    last_updated_at: String,
    status: String,
    show_help: bool,
    help_scroll: u16,
    focus_block: FocusBlock,
    layout_mode: LayoutMode,
    details_scroll: u16,
    logs_lines: Vec<String>,
    logs_scroll: u16,
    logs_follow: bool,
    logged_unit_name: Option<String>,
    logs_dirty: bool,
    should_quit: bool,
    connection_label: String,
}

/// The browser's state with every text as characters.
pub struct AppView {
    pub units: Seq<UnitView>,
    pub filtered: Seq<usize>,
    pub selected: usize,
    pub name_filter: Seq<char>,
    pub filter_input_mode: bool,
    pub state_filter: StateFilter,
    pub last_updated_at: Seq<char>,
    pub status: Seq<char>,
    pub show_help: bool,
    pub help_scroll: u16,
    pub focus_block: FocusBlock,
    pub layout_mode: LayoutMode,
    pub details_scroll: u16,
    pub logs_lines: Seq<Seq<char>>,
    pub logs_scroll: u16,
    pub logs_follow: bool,
    pub logged_unit_name: Option<Seq<char>>,
    pub logs_dirty: bool,
    pub should_quit: bool,
    pub connection_label: Seq<char>,
}

impl View for App {
    type V = AppView;

    closed spec fn view(&self) -> AppView {
        AppView {
            units: units_view(self.units@),
            filtered: self.filtered_indices@,
            selected: self.selected,
            name_filter: self.name_filter@,
            filter_input_mode: self.filter_input_mode,
            state_filter: self.state_filter,
            last_updated_at: self.last_updated_at@,
            status: self.status@,
            show_help: self.show_help,
            help_scroll: self.help_scroll,
            focus_block: self.focus_block,
            layout_mode: self.layout_mode,
            details_scroll: self.details_scroll,
            logs_lines: strings_view(self.logs_lines@),
            logs_scroll: self.logs_scroll,
            logs_follow: self.logs_follow,
            logged_unit_name: opt_view(self.logged_unit_name),
            logs_dirty: self.logs_dirty,
            should_quit: self.should_quit,
            connection_label: self.connection_label@,
        }
    }
}

/// Addition that stops at the largest offset.
pub open spec fn sat_add(a: u16, b: u16) -> u16 {
    if a + b > u16::MAX {
        u16::MAX
    } else {
        (a + b) as u16
    }
}

/// Subtraction that stops at zero.
pub open spec fn sat_sub(a: u16, b: u16) -> u16 {
    if a < b {
        0
    } else {
        (a - b) as u16
    }
}

impl AppView {
    /// The visible rows are exactly the units that pass both filters, and the
    /// selection is a visible row (row 0 when there is none).
    pub open spec fn wf(self) -> bool {
        &&& self.filtered == filtered_indices_for(self.units, self.name_filter, self.state_filter)
        &&& (self.filtered.len() == 0 ==> self.selected == 0)
        &&& (self.filtered.len() > 0 ==> self.selected < self.filtered.len())
    }

    /// The selected row, held within the visible rows.
    pub open spec fn selected_index(self) -> Option<int> {
        if self.filtered.len() == 0 {
            None
        } else {
            Some(clamp_spec(self.selected as int, self.filtered.len() as int))
        }
    }

    /// The unit in the selected row.
    pub open spec fn selected_unit(self) -> Option<UnitView> {
        match self.selected_index() {
            Some(v) => if self.filtered[v] < self.units.len() {
                Some(self.units[self.filtered[v] as int])
            } else {
                None
            },
            None => None,
        }
    }

    /// The name of the unit in the selected row.
    pub open spec fn selected_name(self) -> Option<Seq<char>> {
        match self.selected_unit() {
            Some(u) => Some(u.name),
            None => None,
        }
    }

    /// The visible units, in row order.
    pub open spec fn visible_units(self) -> Seq<UnitView> {
        self.filtered.map_values(|i: usize| self.units[i as int])
    }

    /// Recomputes the visible rows and holds the selection within them.
    pub open spec fn rebuilt(self) -> AppView {
        let filtered = filtered_indices_for(self.units, self.name_filter, self.state_filter);
        AppView {
            filtered: filtered,
            selected: clamp_spec(self.selected as int, filtered.len() as int) as usize,
            ..self
        }
    }

    /// When the selected unit is no longer the one named `previous`, the details
    /// go back to the top, the logs follow again and are due for a refresh.
    pub open spec fn marked_after(self, previous: Option<Seq<char>>) -> AppView {
        if previous != self.selected_name() {
            AppView {
                details_scroll: 0,
                logs_follow: true,
                logs_scroll: u16::MAX,
                logs_dirty: true,
                ..self
            }
        } else {
            self
        }
    }

    /// Scrolls the focused panel down by `amount`.
    pub open spec fn scrolled_down(self, amount: u16) -> AppView {
        match self.focus_block {
            FocusBlock::Units => if self.filtered.len() == 0 {
                AppView { selected: 0, ..self }
            } else {
                AppView {
                    selected: clamp_spec(
                        self.selected + amount,
                        self.filtered.len() as int,
                    ) as usize,
                    ..self
                }
            },
            FocusBlock::Details => AppView {
                details_scroll: sat_add(self.details_scroll, amount),
                ..self
            },
            FocusBlock::Logs => if !self.logs_follow {
                AppView { logs_scroll: sat_add(self.logs_scroll, amount), ..self }
            } else {
                self
            },
        }
    }

    /// Scrolls the focused panel up by `amount`; scrolling the logs up stops following.
    pub open spec fn scrolled_up(self, amount: u16) -> AppView {
        match self.focus_block {
            FocusBlock::Units => AppView {
                selected: if self.selected < amount {
                    0
                } else {
                    (self.selected - amount) as usize
                },
                ..self
            },
            FocusBlock::Details => AppView {
                details_scroll: sat_sub(self.details_scroll, amount),
                ..self
            },
            FocusBlock::Logs => AppView {
                logs_follow: false,
                logs_scroll: sat_sub(self.logs_scroll, amount),
                ..self
            },
        }
    }

    /// Goes to the top of the focused panel; the logs stop following.
    pub open spec fn scrolled_top(self) -> AppView {
        match self.focus_block {
            FocusBlock::Units => AppView { selected: 0, ..self },
            FocusBlock::Details => AppView { details_scroll: 0, ..self },
            FocusBlock::Logs => AppView { logs_follow: false, logs_scroll: 0, ..self },
        }
    }

    /// Goes to the bottom of the focused panel; the logs follow again.
    pub open spec fn scrolled_bottom(self) -> AppView {
        match self.focus_block {
            FocusBlock::Units => if self.filtered.len() > 0 {
                AppView { selected: (self.filtered.len() - 1) as usize, ..self }
            } else {
                self
            },
            FocusBlock::Details => AppView { details_scroll: u16::MAX, ..self },
            FocusBlock::Logs => AppView { logs_follow: true, logs_scroll: u16::MAX, ..self },
        }
    }

    /// A key press while the help is shown.
    pub open spec fn after_help_key(self, key: Key) -> AppView {
        match key {
            Key::Esc | Key::F(1) | Key::Char('h') | Key::Char('q') => AppView {
                show_help: false,
                ..self
            },
            Key::Up | Key::Char('k') => AppView {
                help_scroll: sat_sub(self.help_scroll, 1),
                ..self
            },
            Key::Down | Key::Char('j') => AppView {
                help_scroll: sat_add(self.help_scroll, 1),
                ..self
            },
            Key::PageUp => AppView { help_scroll: sat_sub(self.help_scroll, 8), ..self },
            Key::PageDown => AppView { help_scroll: sat_add(self.help_scroll, 8), ..self },
            Key::Char('g') => AppView { help_scroll: 0, ..self },
            Key::Char('G') => AppView { help_scroll: u16::MAX, ..self },
            _ => self,
        }
    }

    /// A key press while the name filter is being typed.
    pub open spec fn after_filter_key(self, key: Key) -> AppView {
        let previous = self.selected_name();
        let next = match key {
            Key::Esc | Key::Enter => AppView {
                filter_input_mode: false,
                status: "name filter: '"@ + self.name_filter + "'"@,
                ..self
            },
            Key::Backspace => AppView {
                name_filter: if self.name_filter.len() == 0 {
                    self.name_filter
                } else {
                    self.name_filter.drop_last()
                },
                ..self
            }.rebuilt(),
            Key::Char(c) => AppView { name_filter: self.name_filter.push(c), ..self }.rebuilt(),
            _ => self,
        };
        next.marked_after(previous)
    }

    /// The action that a key asks for on the selected unit, if one is selected.
    pub open spec fn action_effect(self, action: UnitAction) -> EffectView {
        match self.selected_unit() {
            Some(u) => EffectView::RunAction { action, unit_name: u.name },
            None => EffectView::Nothing,
        }
    }

    /// A key press in normal mode: the new state before the selection check, and the effect.
    pub open spec fn normal_key_step(self, key: Key) -> (AppView, EffectView) {
        match key {
            Key::Char('q') => (AppView { should_quit: true, ..self }, EffectView::Nothing),
            Key::Char('h') | Key::F(1) => (
                AppView { show_help: true, help_scroll: 0, ..self },
                EffectView::Nothing,
            ),
            Key::Tab => (
                AppView { focus_block: focus_next(self.focus_block), ..self },
                EffectView::Nothing,
            ),
            Key::BackTab => (
                AppView { focus_block: focus_prev(self.focus_block), ..self },
                EffectView::Nothing,
            ),
            Key::F(3) => (
                AppView {
                    layout_mode: layout_toggled(self.layout_mode),
                    status: "layout: "@ + layout_label(layout_toggled(self.layout_mode)),
                    ..self
                },
                EffectView::Nothing,
            ),
            Key::Down | Key::Char('j') => (self.scrolled_down(1), EffectView::Nothing),
            Key::Up | Key::Char('k') => (self.scrolled_up(1), EffectView::Nothing),
            Key::PageDown => (self.scrolled_down(8), EffectView::Nothing),
            Key::PageUp => (self.scrolled_up(8), EffectView::Nothing),
            Key::Char('g') => (self.scrolled_top(), EffectView::Nothing),
            Key::Char('G') => (self.scrolled_bottom(), EffectView::Nothing),
            Key::Char('r') => (self, EffectView::RefreshUnits),
            Key::Char('/') => (
                AppView {
                    filter_input_mode: true,
                    status: "name filter mode: type and press Enter/Esc"@,
                    ..self
                },
                EffectView::Nothing,
            ),
            Key::F(2) => (
                AppView {
                    state_filter: filter_cycled(self.state_filter),
                    status: "state filter: "@ + filter_label(filter_cycled(self.state_filter)),
                    ..self
                }.rebuilt(),
                EffectView::Nothing,
            ),
            Key::Char('s') => (self, self.action_effect(UnitAction::Start)),
            Key::Char('t') => (self, self.action_effect(UnitAction::Stop)),
            Key::Char('R') => (self, self.action_effect(UnitAction::Restart)),
            Key::Char('L') => (self, self.action_effect(UnitAction::Reload)),
            _ => (self, EffectView::Nothing),
        }
    }

    /// A key press: the help takes it while shown, then the name filter while
    /// typed, else the normal key map; the state after it and the work it asks for.
    pub open spec fn after_key(self, key: Key) -> (AppView, EffectView) {
        if self.show_help {
            (self.after_help_key(key), EffectView::Nothing)
        } else if self.filter_input_mode {
            (self.after_filter_key(key), EffectView::Nothing)
        } else {
            let step = self.normal_key_step(key);
            (step.0.marked_after(self.selected_name()), step.1)
        }
    }

    /// A fresh unit list: sorted by name, filtered again, the selection kept on
    /// the unit that was selected if it is still visible, the time stamp set and
    /// the logs due for a refresh.
    pub open spec fn after_units(self, units: Seq<UnitView>, updated_at: Seq<char>) -> AppView {
        let previous = self.selected_name();
        let sorted = sorted_by_name(units);
        let t = AppView { units: sorted, ..self }.rebuilt();
        let t2 = match previous {
            Some(name) => AppView {
                selected: restore_spec(sorted, t.filtered, name, t.selected as int) as usize,
                ..t
            },
            None => t,
        };
        AppView { last_updated_at: updated_at, logs_dirty: true, ..t2 }
    }

    /// Fresh logs of the selected unit: shown (a placeholder when there are none
    /// or no unit is selected); a changed selection resets the details scroll and
    /// follows the logs, an unchanged one keeps following if it did.
    pub open spec fn after_logs(self, fetched: Seq<Seq<char>>) -> AppView {
        let selected = self.selected_name();
        let lines = match selected {
            Some(_) => if fetched.len() == 0 {
                seq!["No logs found"@]
            } else {
                fetched
            },
            None => seq!["No unit selected"@],
        };
        let changed = selected != self.logged_unit_name;
        AppView {
            logs_lines: lines,
            details_scroll: if changed {
                0
            } else {
                self.details_scroll
            },
            logs_follow: if changed {
                true
            } else {
                self.logs_follow
            },
            logs_scroll: if changed || self.logs_follow {
                u16::MAX
            } else {
                self.logs_scroll
            },
            logged_unit_name: selected,
            logs_dirty: false,
            ..self
        }
    }

    /// Whether the logs are due: marked so, the selection moved to another unit
    /// than the one logged, or a unit is selected and the refresh interval passed.
    pub open spec fn logs_due(self, interval_elapsed: bool) -> bool {
        self.logs_dirty || self.selected_name() != self.logged_unit_name || (
        self.selected_unit() is Some && interval_elapsed)
    }
}

/// The state the browser starts in, before the first unit list.
pub open spec fn initial_view(connection_label: Seq<char>) -> AppView {
    AppView {
        units: seq![],
        filtered: seq![],
        selected: 0,
        name_filter: seq![],
        filter_input_mode: false,
        state_filter: StateFilter::All,
        last_updated_at: "-"@,
        status: "Ready"@,
        show_help: false,
        help_scroll: 0,
        focus_block: FocusBlock::Units,
        layout_mode: LayoutMode::Horizontal,
        details_scroll: 0,
        logs_lines: seq!["Loading logs..."@],
        logs_scroll: u16::MAX,
        logs_follow: true,
        logged_unit_name: None,
        logs_dirty: true,
        should_quit: false,
        connection_label: connection_label,
    }
}

/// The views of an optional unit reference.
pub open spec fn opt_unit_view(u: Option<&SystemdUnit>) -> Option<UnitView> {
    match u {
        Some(x) => Some(x@),
        None => None,
    }
}

} // verus!

verus! {

impl App {
    /// Whether a unit passes the state filter.
    pub fn matches_state_filter_for(state_filter: StateFilter, unit: &SystemdUnit) -> (r: bool)
        ensures
            r == state_filter_matches(state_filter, unit.active_state),
    {
        match state_filter {
            StateFilter::All => true,
            StateFilter::Active => unit.active_state == UnitActiveState::Active,
            StateFilter::Inactive => unit.active_state == UnitActiveState::Inactive,
            StateFilter::Failed => unit.active_state == UnitActiveState::Failed,
        }
    }

    /// Whether a unit is visible, from its lowercased name and description, the
    /// lowercased name filter, the state filter and the unit's active state.
    pub fn unit_visible(
        name_lower: &str,
        description_lower: &str,
        needle_lower: &str,
        state_filter: StateFilter,
        active_state: UnitActiveState,
    ) -> (r: bool)
        ensures
            r == visible_by_lowered(
                name_lower@,
                description_lower@,
                needle_lower@,
                state_filter,
                active_state,
            ),
    {
        let passes_state = match state_filter {
            StateFilter::All => true,
            StateFilter::Active => active_state == UnitActiveState::Active,
            StateFilter::Inactive => active_state == UnitActiveState::Inactive,
            StateFilter::Failed => active_state == UnitActiveState::Failed,
        };
        if !passes_state {
            return false;
        }
        let needle = chars_of(needle_lower);
        if needle.len() == 0 {
            return true;
        }
        if contains_chars(&chars_of(name_lower), &needle) {
            return true;
        }
        contains_chars(&chars_of(description_lower), &needle)
    }

    /// Whether a name filter is blank: it lowercases to nothing, which is so
    /// exactly when it is empty. A blank filter with no state filter shows every
    /// unit, in list order.
    pub fn filter_is_blank(name_filter: &str) -> (r: bool)
        ensures
            r == (lowercase(name_filter@).len() == 0),
            r == (name_filter@.len() == 0),
            r ==> forall|units: Seq<UnitView>|
                units.len() <= usize::MAX ==> #[trigger] filtered_indices_for(
                    units,
                    name_filter@,
                    StateFilter::All,
                ) == Seq::new(units.len(), |i: int| i as usize),
    {
        let lowered = to_lowercase(name_filter);
        let r = lowered.as_str().is_empty();
        proof {
            if r {
                assert forall|units: Seq<UnitView>| units.len() <= usize::MAX implies #[trigger] filtered_indices_for(
                    units,
                    name_filter@,
                    StateFilter::All,
                ) == Seq::new(units.len(), |i: int| i as usize) by {
                    crate::laws::law_no_filter_shows_every_unit(units, name_filter@);
                }
            }
        }
        r
    }

    /// The positions of the units that pass the state filter and whose name or
    /// description holds the name filter, compared in lower case; ascending.
    pub fn rebuild_filtered_indices_for(
        units: &[SystemdUnit],
        name_filter: &str,
        state_filter: StateFilter,
    ) -> (r: Vec<usize>)
        ensures
            r@ == filtered_indices_for(units_view(units@), name_filter@, state_filter),
    {
        let ghost uv = units_view(units@);
        let needle = to_lowercase(name_filter);
        let mut r: Vec<usize> = Vec::new();
        for i in 0..units.len()
            invariant
                uv == units_view(units@),
                needle@ == lowercase(name_filter@),
                r@ == matching_indices(uv, lowercase(name_filter@), state_filter, i as nat),
        {
            let unit = &units[i];
            assert(uv[i as int] == unit@);
            let name_lower = to_lowercase(unit.name.as_str());
            let description_lower = to_lowercase(unit.description.as_str());
            let keep = Self::unit_visible(
                name_lower.as_str(),
                description_lower.as_str(),
                needle.as_str(),
                state_filter,
                unit.active_state,
            );
            if keep {
                r.push(i);
            }
        }
        r
    }

    /// The selection held within `visible_len` rows (row 0 when there are none).
    pub fn clamp_selected(selected: usize, visible_len: usize) -> (r: usize)
        ensures
            r == clamp_spec(selected as int, visible_len as int),
    {
        if visible_len == 0 {
            0
        } else if selected < visible_len - 1 {
            selected
        } else {
            visible_len - 1
        }
    }

    /// The logs scroll offset to draw with: the bottom while following, else the
    /// remembered offset held within the bottom.
    pub fn effective_logs_scroll_for(logs_scroll: u16, logs_follow: bool, max_scroll: u16) -> (r:
        u16)
        ensures
            r == effective_scroll_spec(logs_scroll, logs_follow, max_scroll),
    {
        if logs_follow {
            max_scroll
        } else if logs_scroll < max_scroll {
            logs_scroll
        } else {
            max_scroll
        }
    }

    /// The first visible row whose unit has the given name, or else the fallback
    /// row held within the visible rows.
    pub fn restore_selected_index_for_name(
        units: &[SystemdUnit],
        filtered_indices: &[usize],
        selected_name: &str,
        fallback_selected: usize,
    ) -> (r: usize)
        ensures
            r == restore_spec(
                units_view(units@),
                filtered_indices@,
                selected_name@,
                fallback_selected as int,
            ),
    {
        let ghost uv = units_view(units@);
        for v in 0..filtered_indices.len()
            invariant
                uv == units_view(units@),
                find_named(uv, filtered_indices@, selected_name@, 0) == find_named(
                    uv,
                    filtered_indices@,
                    selected_name@,
                    v as nat,
                ),
        {
            let unit_idx = filtered_indices[v];
            if unit_idx < units.len() {
                assert(uv[unit_idx as int] == units@[unit_idx as int]@);
                if crate::text::str_eq(units[unit_idx].name.as_str(), selected_name) {
                    return v;
                }
            }
        }
        Self::clamp_selected(fallback_selected, filtered_indices.len())
    }
}

} // verus!

verus! {

impl App {
    /// The browser before the first unit list, for the given connection.
    pub fn new(connection_label: String) -> (app: App)
        ensures
            app@ == initial_view(connection_label@),
            app@.wf(),
    {
        let mut logs_lines: Vec<String> = Vec::new();
        logs_lines.push(owned("Loading logs..."));
        let app = App {
            units: Vec::new(),
            filtered_indices: Vec::new(),
            selected: 0,
            name_filter: String::new(),
            filter_input_mode: false,
            state_filter: StateFilter::All,
            last_updated_at: owned("-"),
            status: owned("Ready"),
            show_help: false,
            help_scroll: 0,
            focus_block: FocusBlock::Units,
            layout_mode: LayoutMode::Horizontal,
            details_scroll: 0,
            logs_lines,
            logs_scroll: u16::MAX,
            logs_follow: true,
            logged_unit_name: None,
            logs_dirty: true,
            should_quit: false,
            connection_label,
        };
        assert(app@.units =~= Seq::<UnitView>::empty());
        assert(app@.logs_lines =~= seq!["Loading logs..."@]);
        app
    }

    /// The selected row, if any row is visible.
    pub fn selected_index(&self) -> (r: Option<usize>)
        ensures
            match r {
                Some(v) => self@.selected_index() == Some(v as int),
                None => self@.selected_index() is None,
            },
    {
        if self.filtered_indices.len() == 0 {
            None
        } else {
            Some(Self::clamp_selected(self.selected, self.filtered_indices.len()))
        }
    }

    /// The unit in the selected row.
    pub fn selected_unit(&self) -> (r: Option<&SystemdUnit>)
        ensures
            opt_unit_view(r) == self@.selected_unit(),
    {
        match self.selected_index() {
            None => None,
            Some(v) => {
                let unit_idx = self.filtered_indices[v];
                if unit_idx < self.units.len() {
                    Some(&self.units[unit_idx])
                } else {
                    None
                }
            },
        }
    }

    /// The name of the unit in the selected row.
    pub fn selected_unit_name(&self) -> (r: Option<String>)
        ensures
            opt_view(r) == self@.selected_name(),
    {
        match self.selected_unit() {
            Some(u) => Some(u.name.clone()),
            None => None,
        }
    }

    /// The visible units, in row order.
    pub fn visible_units(&self) -> (r: Vec<&SystemdUnit>)
        requires
            self@.wf(),
        ensures
            r@.map_values(|u: &SystemdUnit| u@) == self@.visible_units(),
    {
        proof {
            lemma_filtered_indices_in_range(self@.units, self@.name_filter, self@.state_filter);
        }
        let mut r: Vec<&SystemdUnit> = Vec::new();
        for v in 0..self.filtered_indices.len()
            invariant
                self@.wf(),
                forall|k: int|
                    0 <= k < self@.filtered.len() ==> #[trigger] self@.filtered[k]
                        < self@.units.len(),
                r@.map_values(|u: &SystemdUnit| u@) == self@.visible_units().take(v as int),
        {
            let unit_idx = self.filtered_indices[v];
            assert(self@.filtered[v as int] == unit_idx);
            assert(self@.units[unit_idx as int] == self.units@[unit_idx as int]@);
            assert(self@.visible_units()[v as int] == self@.units[unit_idx as int]);
            let ghost before = r@;
            r.push(&self.units[unit_idx]);
            assert(r@.map_values(|u: &SystemdUnit| u@) =~= before.map_values(|u: &SystemdUnit| u@).push(
                self@.units[unit_idx as int],
            ));
            assert(self@.visible_units().take(v + 1) =~= self@.visible_units().take(v as int).push(
                self@.visible_units()[v as int],
            ));
        }
        assert(self@.visible_units().take(self@.filtered.len() as int) =~= self@.visible_units());
        r
    }

    /// How many rows are visible.
    pub fn visible_count(&self) -> (r: usize)
        ensures
            r == self@.filtered.len(),
    {
        self.filtered_indices.len()
    }

    /// All listed units, sorted by name.
    pub fn units(&self) -> (r: &[SystemdUnit])
        ensures
            units_view(r@) == self@.units,
    {
        self.units.as_slice()
    }

    /// How the browser is connected.
    pub fn connection_label(&self) -> (r: &str)
        ensures
            r@ == self@.connection_label,
    {
        self.connection_label.as_str()
    }

    /// The state filter's name.
    pub fn state_filter_label(&self) -> (r: &'static str)
        ensures
            r@ == filter_label(self@.state_filter),
    {
        self.state_filter.label()
    }

    /// The state filter.
    pub fn state_filter(&self) -> (r: StateFilter)
        ensures
            r == self@.state_filter,
    {
        self.state_filter
    }

    /// The name filter as typed.
    pub fn name_filter(&self) -> (r: &str)
        ensures
            r@ == self@.name_filter,
    {
        self.name_filter.as_str()
    }

    /// Whether keys go to the name filter.
    pub fn filter_input_mode(&self) -> (r: bool)
        ensures
            r == self@.filter_input_mode,
    {
        self.filter_input_mode
    }

    /// Whether the help is shown.
    pub fn show_help(&self) -> (r: bool)
        ensures
            r == self@.show_help,
    {
        self.show_help
    }

    /// The help's scroll offset.
    pub fn help_scroll(&self) -> (r: u16)
        ensures
            r == self@.help_scroll,
    {
        self.help_scroll
    }

    /// The focused panel.
    pub fn focus_block(&self) -> (r: FocusBlock)
        ensures
            r == self@.focus_block,
    {
        self.focus_block
    }

    /// The arrangement of the panels.
    pub fn layout_mode(&self) -> (r: LayoutMode)
        ensures
            r == self@.layout_mode,
    {
        self.layout_mode
    }

    /// The details panel's scroll offset.
    pub fn details_scroll(&self) -> (r: u16)
        ensures
            r == self@.details_scroll,
    {
        self.details_scroll
    }

    /// Whether the logs panel follows the newest lines.
    pub fn logs_follow(&self) -> (r: bool)
        ensures
            r == self@.logs_follow,
    {
        self.logs_follow
    }

    /// The status line.
    pub fn status(&self) -> (r: &str)
        ensures
            r@ == self@.status,
    {
        self.status.as_str()
    }

    /// When the unit list was last refreshed.
    pub fn last_updated_at(&self) -> (r: &str)
        ensures
            r@ == self@.last_updated_at,
    {
        self.last_updated_at.as_str()
    }

    /// The lines of the logs panel.
    pub fn logs_lines(&self) -> (r: &[String])
        ensures
            strings_view(r@) == self@.logs_lines,
    {
        self.logs_lines.as_slice()
    }

    /// Whether the user asked to quit.
    pub fn should_quit(&self) -> (r: bool)
        ensures
            r == self@.should_quit,
    {
        self.should_quit
    }

    /// The lines of the details panel: the selected unit's details, or a note
    /// that none is selected.
    pub fn details_lines(&self) -> (r: Vec<String>)
        ensures
            strings_view(r@) == match self@.selected_unit() {
                Some(u) => unit_details(u),
                None => seq!["No unit selected"@],
            },
    {
        match self.selected_unit() {
            Some(unit) => unit.details_lines(),
            None => {
                let mut r: Vec<String> = Vec::new();
                r.push(owned("No unit selected"));
                assert(strings_view(r@) =~= seq!["No unit selected"@]);
                r
            },
        }
    }

    /// The logs scroll offset to draw with, given the bottom offset.
    pub fn effective_logs_scroll(&self, max_scroll: u16) -> (r: u16)
        ensures
            r == effective_scroll_spec(self@.logs_scroll, self@.logs_follow, max_scroll),
    {
        Self::effective_logs_scroll_for(self.logs_scroll, self.logs_follow, max_scroll)
    }
}

/// Every visible row refers to a listed unit, and the rows are strictly ascending.
pub proof fn lemma_filtered_indices_in_range(
    units: Seq<UnitView>,
    name_filter: Seq<char>,
    f: StateFilter,
)
    ensures
        filtered_indices_for(units, name_filter, f).len() <= units.len(),
        forall|k: int|
            0 <= k < filtered_indices_for(units, name_filter, f).len() ==> #[trigger] filtered_indices_for(
                units,
                name_filter,
                f,
            )[k] < units.len(),
{
    lemma_matching_indices_bounds(units, lowercase(name_filter), f, units.len());
}

proof fn lemma_matching_indices_bounds(
    units: Seq<UnitView>,
    needle: Seq<char>,
    f: StateFilter,
    n: nat,
)
    requires
        n <= units.len(),
    ensures
        matching_indices(units, needle, f, n).len() <= n,
        forall|k: int|
            0 <= k < matching_indices(units, needle, f, n).len() ==> #[trigger] matching_indices(
                units,
                needle,
                f,
                n,
            )[k] < n,
    decreases n,
{
    if n > 0 {
        lemma_matching_indices_bounds(units, needle, f, (n - 1) as nat);
        let before = matching_indices(units, needle, f, (n - 1) as nat);
        let all = matching_indices(units, needle, f, n);
        assert forall|k: int| 0 <= k < all.len() implies #[trigger] all[k] < n by {
            if k < before.len() {
                assert(all[k] == before[k]);
            }
        }
    }
}

} // verus!

verus! {

/// Recomputing the visible rows yields a well-formed state.
pub proof fn lemma_rebuilt_wf(s: AppView)
    ensures
        s.rebuilt().wf(),
{
}

/// A row that `find_named` finds is a visible row of a unit with that name.
pub proof fn lemma_find_named_in_range_pub(
    units: Seq<UnitView>,
    filtered: Seq<usize>,
    name: Seq<char>,
    v: nat,
)
    ensures
        match find_named(units, filtered, name, v) {
            Some(w) => v <= w < filtered.len() && filtered[w as int] < units.len()
                && units[filtered[w as int] as int].name == name,
            None => true,
        },
{
    lemma_find_named_in_range(units, filtered, name, v);
}

proof fn lemma_find_named_in_range(
    units: Seq<UnitView>,
    filtered: Seq<usize>,
    name: Seq<char>,
    v: nat,
)
    ensures
        match find_named(units, filtered, name, v) {
            Some(w) => v <= w < filtered.len() && filtered[w as int] < units.len()
                && units[filtered[w as int] as int].name == name,
            None => true,
        },
    decreases filtered.len() - v,
{
    if v < filtered.len() {
        lemma_find_named_in_range(units, filtered, name, v + 1);
    }
}

impl App {
    fn rebuild_filtered_indices(&mut self)
        ensures
            final(self)@ == old(self)@.rebuilt(),
            final(self)@.wf(),
    {
        self.filtered_indices = Self::rebuild_filtered_indices_for(
            self.units.as_slice(),
            self.name_filter.as_str(),
            self.state_filter,
        );
        self.selected = Self::clamp_selected(self.selected, self.filtered_indices.len());
    }

    /// After a change that may have moved the selection: when the selected unit
    /// is not the one named `previous_selected_name`, reset the details scroll,
    /// follow the logs again and mark them due.
    pub fn mark_logs_dirty_on_selection_change(&mut self, previous_selected_name: Option<String>)
        ensures
            final(self)@ == old(self)@.marked_after(opt_view(previous_selected_name)),
            old(self)@.wf() ==> final(self)@.wf(),
    {
        let current = self.selected_unit_name();
        if !opt_string_eq(&previous_selected_name, &current) {
            self.details_scroll = 0;
            self.logs_follow = true;
            self.logs_scroll = u16::MAX;
            self.logs_dirty = true;
        }
    }

    fn scroll_focused_down(&mut self, amount: u16)
        requires
            old(self)@.wf(),
        ensures
            final(self)@ == old(self)@.scrolled_down(amount),
            final(self)@.wf(),
    {
        match self.focus_block {
            FocusBlock::Units => {
                if self.filtered_indices.len() == 0 {
                    self.selected = 0;
                    return ;
                }
                let last = self.filtered_indices.len() - 1;
                let step = amount as usize;
                if step >= last - self.selected {
                    self.selected = last;
                } else {
                    self.selected = self.selected + step;
                }
            },
            FocusBlock::Details => {
                self.details_scroll = self.details_scroll.saturating_add(amount);
            },
            FocusBlock::Logs => {
                if !self.logs_follow {
                    self.logs_scroll = self.logs_scroll.saturating_add(amount);
                }
            },
        }
    }

    fn scroll_focused_up(&mut self, amount: u16)
        requires
            old(self)@.wf(),
        ensures
            final(self)@ == old(self)@.scrolled_up(amount),
            final(self)@.wf(),
    {
        match self.focus_block {
            FocusBlock::Units => {
                self.selected = self.selected.saturating_sub(amount as usize);
            },
            FocusBlock::Details => {
                self.details_scroll = self.details_scroll.saturating_sub(amount);
            },
            FocusBlock::Logs => {
                self.logs_follow = false;
                self.logs_scroll = self.logs_scroll.saturating_sub(amount);
            },
        }
    }

    fn scroll_focused_top(&mut self)
        requires
            old(self)@.wf(),
        ensures
            final(self)@ == old(self)@.scrolled_top(),
            final(self)@.wf(),
    {
        match self.focus_block {
            FocusBlock::Units => self.selected = 0,
            FocusBlock::Details => self.details_scroll = 0,
            FocusBlock::Logs => {
                self.logs_follow = false;
                self.logs_scroll = 0;
            },
        }
    }

    fn scroll_focused_bottom(&mut self)
        requires
            old(self)@.wf(),
        ensures
            final(self)@ == old(self)@.scrolled_bottom(),
            final(self)@.wf(),
    {
        match self.focus_block {
            FocusBlock::Units => {
                if self.filtered_indices.len() > 0 {
                    self.selected = self.filtered_indices.len() - 1;
                }
            },
            FocusBlock::Details => self.details_scroll = u16::MAX,
            FocusBlock::Logs => {
                self.logs_follow = true;
                self.logs_scroll = u16::MAX;
            },
        }
    }

    fn on_help_key(&mut self, key: Key)
        requires
            old(self)@.wf(),
        ensures
            final(self)@ == old(self)@.after_help_key(key),
            final(self)@.wf(),
    {
        match key {
            Key::Esc | Key::F(1) | Key::Char('h') | Key::Char('q') => {
                self.show_help = false;
            },
            Key::Up | Key::Char('k') => {
                self.help_scroll = self.help_scroll.saturating_sub(1);
            },
            Key::Down | Key::Char('j') => {
                self.help_scroll = self.help_scroll.saturating_add(1);
            },
            Key::PageUp => {
                self.help_scroll = self.help_scroll.saturating_sub(8);
            },
            Key::PageDown => {
                self.help_scroll = self.help_scroll.saturating_add(8);
            },
            Key::Char('g') => {
                self.help_scroll = 0;
            },
            Key::Char('G') => {
                self.help_scroll = u16::MAX;
            },
            _ => {},
        }
    }

    fn edit_name_filter(&mut self, key: Key)
        requires
            old(self)@.wf(),
        ensures
            final(self)@ == match key {
                Key::Esc | Key::Enter => AppView {
                    filter_input_mode: false,
                    status: "name filter: '"@ + old(self)@.name_filter + "'"@,
                    ..old(self)@
                },
                Key::Backspace => AppView {
                    name_filter: if old(self)@.name_filter.len() == 0 {
                        old(self)@.name_filter
                    } else {
                        old(self)@.name_filter.drop_last()
                    },
                    ..old(self)@
                }.rebuilt(),
                Key::Char(c) => AppView {
                    name_filter: old(self)@.name_filter.push(c),
                    ..old(self)@
                }.rebuilt(),
                _ => old(self)@,
            },
            final(self)@.wf(),
    {
        match key {
            Key::Esc | Key::Enter => {
                self.filter_input_mode = false;
                self.status = join3("name filter: '", self.name_filter.as_str(), "'");
            },
            Key::Backspace => {
                pop_char(&mut self.name_filter);
                self.rebuild_filtered_indices();
            },
            Key::Char(c) => {
                push_char(&mut self.name_filter, c);
                self.rebuild_filtered_indices();
            },
            _ => {},
        }
    }

    fn on_filter_input_key(&mut self, key: Key)
        requires
            old(self)@.wf(),
        ensures
            final(self)@ == old(self)@.after_filter_key(key),
            final(self)@.wf(),
    {
        let previous_selected_name = self.selected_unit_name();
        self.edit_name_filter(key);
        self.mark_logs_dirty_on_selection_change(previous_selected_name);
    }
}

} // verus!

verus! {

impl App {
    fn action_effect(&self, action: UnitAction) -> (r: Effect)
        ensures
            r@ == self@.action_effect(action),
    {
        match self.selected_unit_name() {
            Some(unit_name) => Effect::RunAction { action, unit_name },
            None => Effect::Nothing,
        }
    }

    fn normal_key(&mut self, key: Key) -> (r: Effect)
        requires
            old(self)@.wf(),
        ensures
            (final(self)@, r@) == old(self)@.normal_key_step(key),
            final(self)@.wf(),
    {
        match key {
            Key::Char('q') => {
                self.should_quit = true;
                Effect::Nothing
            },
            Key::Char('h') | Key::F(1) => {
                self.show_help = true;
                self.help_scroll = 0;
                Effect::Nothing
            },
            Key::Tab => {
                self.focus_block = self.focus_block.next();
                Effect::Nothing
            },
            Key::BackTab => {
                self.focus_block = self.focus_block.prev();
                Effect::Nothing
            },
            Key::F(3) => {
                self.layout_mode = self.layout_mode.toggle();
                self.status = join2("layout: ", self.layout_mode.label());
                Effect::Nothing
            },
            Key::Down | Key::Char('j') => {
                self.scroll_focused_down(1);
                Effect::Nothing
            },
            Key::Up | Key::Char('k') => {
                self.scroll_focused_up(1);
                Effect::Nothing
            },
            Key::PageDown => {
                self.scroll_focused_down(8);
                Effect::Nothing
            },
            Key::PageUp => {
                self.scroll_focused_up(8);
                Effect::Nothing
            },
            Key::Char('g') => {
                self.scroll_focused_top();
                Effect::Nothing
            },
            Key::Char('G') => {
                self.scroll_focused_bottom();
                Effect::Nothing
            },
            Key::Char('r') => Effect::RefreshUnits,
            Key::Char('/') => {
                self.filter_input_mode = true;
                self.status = owned("name filter mode: type and press Enter/Esc");
                Effect::Nothing
            },
            Key::F(2) => {
                self.state_filter = self.state_filter.cycle();
                self.status = join2("state filter: ", self.state_filter.label());
                self.rebuild_filtered_indices();
                Effect::Nothing
            },
            Key::Char('s') => self.action_effect(UnitAction::Start),
            Key::Char('t') => self.action_effect(UnitAction::Stop),
            Key::Char('R') => self.action_effect(UnitAction::Restart),
            Key::Char('L') => self.action_effect(UnitAction::Reload),
            _ => Effect::Nothing,
        }
    }

    /// Handles a key press: the help takes it while shown, the name filter while
    /// typed, else the key map (quit, help, focus, layout, scrolling, refresh,
    /// filter input, state filter, unit actions). Returns the work it asks for.
    pub fn on_key(&mut self, key: Key) -> (r: Effect)
        requires
            old(self)@.wf(),
        ensures
            (final(self)@, r@) == old(self)@.after_key(key),
            final(self)@.wf(),
    {
        if self.show_help {
            self.on_help_key(key);
            return Effect::Nothing;
        }
        if self.filter_input_mode {
            self.on_filter_input_key(key);
            return Effect::Nothing;
        }
        let previous_selected_name = self.selected_unit_name();
        let effect = self.normal_key(key);
        self.mark_logs_dirty_on_selection_change(previous_selected_name);
        effect
    }
}

} // verus!

verus! {

impl AppView {
    /// The same state with another status line.
    pub open spec fn with_status(self, status: Seq<char>) -> AppView {
        AppView { status: status, ..self }
    }
}

/// The characters of an optional string slice.
pub open spec fn opt_str_view(s: Option<&str>) -> Option<Seq<char>> {
    match s {
        Some(x) => Some(x@),
        None => None,
    }
}

/// The error text of an outcome, if it failed.
pub open spec fn result_error_view(r: Result<(), String>) -> Option<Seq<char>> {
    match r {
        Ok(_) => None,
        Err(e) => Some(e@),
    }
}

/// The status after a refresh caused by unit change signals.
pub open spec fn signal_refresh_status(changes: u64, error: Option<Seq<char>>) -> Seq<char> {
    match error {
        Some(e) => "signal refresh error: "@ + e,
        None => "dbus events: "@ + crate::text::decimal(changes as nat) + " unit changes"@,
    }
}

/// The status after a unit action was requested.
pub open spec fn action_outcome_status(
    action: UnitAction,
    unit_name: Seq<char>,
    error: Option<Seq<char>>,
) -> Seq<char> {
    match error {
        None => action_label(action) + " requested for "@ + unit_name,
        Some(e) => action_label(action) + " failed for "@ + unit_name + ": "@ + e,
    }
}

/// How many log lines are fetched for the selected unit.
pub const LOGS_LINE_LIMIT: usize = 200;

impl App {
    /// Takes a freshly fetched unit list: sorts it by name, filters it again,
    /// keeps the selection on the previously selected unit when it is still
    /// visible, records the time stamp and marks the logs due.
    pub fn apply_units(&mut self, units: Vec<SystemdUnit>, updated_at: String)
        requires
            old(self)@.wf(),
        ensures
            final(self)@ == old(self)@.after_units(units_view(units@), updated_at@),
            final(self)@.wf(),
    {
        let selected_name = self.selected_unit_name();
        self.units = sort_units_by_name(units);
        self.rebuild_filtered_indices();
        match selected_name {
            Some(name) => {
                let restored = Self::restore_selected_index_for_name(
                    self.units.as_slice(),
                    self.filtered_indices.as_slice(),
                    name.as_str(),
                    self.selected,
                );
                proof {
                    lemma_find_named_in_range(self@.units, self@.filtered, name@, 0);
                }
                self.selected = restored;
            },
            None => {},
        }
        self.last_updated_at = updated_at;
        self.logs_dirty = true;
    }

    /// The unit whose logs the next log refresh fetches, if one is selected.
    pub fn logs_target(&self) -> (r: Option<String>)
        ensures
            opt_view(r) == self@.selected_name(),
    {
        self.selected_unit_name()
    }

    /// Takes the logs fetched for the selected unit (ignored when none is
    /// selected): shows them or a placeholder, resets the scroll when the
    /// selection changed since the last logs, and clears the due mark.
    pub fn apply_logs(&mut self, logs: Vec<String>)
        requires
            old(self)@.wf(),
        ensures
            final(self)@ == old(self)@.after_logs(strings_view(logs@)),
            final(self)@.wf(),
    {
        let selected_name = self.selected_unit_name();
        let selected_changed = !opt_string_eq(&selected_name, &self.logged_unit_name);
        let is_selected = selected_name.is_some();
        if is_selected {
            if logs.len() == 0 {
                let mut lines: Vec<String> = Vec::new();
                lines.push(owned("No logs found"));
                assert(strings_view(lines@) =~= seq!["No logs found"@]);
                self.logs_lines = lines;
            } else {
                self.logs_lines = logs;
            }
        } else {
            let mut lines: Vec<String> = Vec::new();
            lines.push(owned("No unit selected"));
            assert(strings_view(lines@) =~= seq!["No unit selected"@]);
            self.logs_lines = lines;
        }
        if selected_changed {
            self.details_scroll = 0;
            self.logs_follow = true;
            self.logs_scroll = u16::MAX;
        } else if self.logs_follow {
            self.logs_scroll = u16::MAX;
        }
        self.logged_unit_name = selected_name;
        self.logs_dirty = false;
    }

    /// Whether the logs should be fetched now: they are marked due, another
    /// unit is selected than the one logged, or a unit is selected and the
    /// logs refresh interval has passed.
    pub fn should_refresh_logs(&self, interval_elapsed: bool) -> (r: bool)
        ensures
            r == self@.logs_due(interval_elapsed),
    {
        let selected_name = self.selected_unit_name();
        self.logs_dirty || !opt_string_eq(&selected_name, &self.logged_unit_name) || (
        self.selected_unit().is_some() && interval_elapsed)
    }

    /// Reports a failed unit list refresh in the status line.
    pub fn report_refresh_error(&mut self, error: &str)
        ensures
            final(self)@ == old(self)@.with_status("refresh error: "@ + error@),
    {
        self.status = join2("refresh error: ", error);
    }

    /// Reports a failed log refresh in the status line.
    pub fn report_logs_error(&mut self, error: &str)
        ensures
            final(self)@ == old(self)@.with_status("logs refresh error: "@ + error@),
    {
        self.status = join2("logs refresh error: ", error);
    }

    /// Reports the refresh that the manager's unit change signals caused:
    /// how many changes arrived, or why the refresh failed.
    pub fn report_signal_refresh(&mut self, changes: u64, error: Option<&str>)
        ensures
            final(self)@ == old(self)@.with_status(signal_refresh_status(changes, opt_str_view(error))),
    {
        match error {
            Some(e) => {
                self.status = join2("signal refresh error: ", e);
            },
            None => {
                let count = crate::text::decimal_string(changes);
                self.status = join3("dbus events: ", count.as_str(), " unit changes");
            },
        }
    }

    /// Reports the outcome of a unit action in the status line; returns whether
    /// the unit list should now be refreshed (it should after a success).
    pub fn finish_unit_action(
        &mut self,
        action: UnitAction,
        unit_name: &str,
        outcome: Result<(), String>,
    ) -> (refresh: bool)
        ensures
            refresh == outcome is Ok,
            final(self)@ == old(self)@.with_status(
                action_outcome_status(action, unit_name@, result_error_view(outcome)),
            ),
    {
        match outcome {
            Ok(()) => {
                self.status = join3(action.label(), " requested for ", unit_name);
                true
            },
            Err(e) => {
                let head = join3(action.label(), " failed for ", unit_name);
                self.status = join3(head.as_str(), ": ", e.as_str());
                false
            },
        }
    }

    /// Reports a failed refresh after a unit action in the status line.
    pub fn report_post_action_refresh_error(&mut self, action: UnitAction, error: &str)
        ensures
            final(self)@ == old(self)@.with_status(
                "post-"@ + action_label(action) + " refresh error: "@ + error@,
            ),
    {
        let head = join2("post-", action.label());
        self.status = join3(head.as_str(), " refresh error: ", error);
    }
}

} // verus!

verus! {

/// Milliseconds between log refreshes of the selected unit.
pub const LOGS_REFRESH_INTERVAL_MS: u64 = 1000;

/// Whether unit change signals call for fetching the unit list: any arrived.
pub fn refresh_for_signals(signal_updates: u64) -> (r: bool)
    ensures
        r == (signal_updates > 0),
{
    signal_updates > 0
}

/// Whether a periodic refresh is due: at least the interval has passed.
pub fn interval_elapsed(elapsed_ms: u64, interval_ms: u64) -> (r: bool)
    ensures
        r == (elapsed_ms >= interval_ms),
{
    elapsed_ms >= interval_ms
}

} // verus!
