//! Properties of the browser that hold across calls: the cycles of the panel,
//! layout and state-filter keys, what the visible rows are, how a refresh keeps
//! the selection, and which keys leave which parts of the state alone.
use vstd::prelude::*;
use crate::app::{
    clamp_spec, restore_spec, visible_by_lowered, state_filter_matches,
    find_named,
    filter_cycled, filtered_indices_for, focus_next, focus_prev, layout_toggled,
    lemma_filtered_indices_in_range, matching_indices, unit_matches, AppView, EffectView,
    FocusBlock, Key, LayoutMode, StateFilter, effective_scroll_spec,
};
use crate::text::{contains_seq, decimal, digit_char, lowercase, seq_lt};
use crate::actions::{action_label, action_method};
use crate::bus::BusKind;
use crate::manager::{journalctl_args_spec, lines_of, line_scan, strip_cr};
use crate::units::{active_glyph_of, tone_of, StatusTone};
use crate::app::initial_view;
use crate::view::max_scroll_spec;
use crate::units::{is_sorted_by_name, lemma_sorted_by_name_is_sorted, lemma_sorted_by_name_permutes};
use crate::actions::UnitAction;
use crate::units::UnitActiveState;
use crate::units::UnitView;

verus! {

/// Four presses of the state-filter key bring back the filter one started with.
pub proof fn law_state_filter_cycle_has_period_four(f: StateFilter)
    ensures
        filter_cycled(filter_cycled(filter_cycled(filter_cycled(f)))) == f,
        filter_cycled(f) != f,
{
}

/// Focusing the previous panel undoes focusing the next one and vice versa, and
/// three steps forward return to the start.
pub proof fn law_focus_next_prev_inverse(f: FocusBlock)
    ensures
        focus_prev(focus_next(f)) == f,
        focus_next(focus_prev(f)) == f,
        focus_next(focus_next(focus_next(f))) == f,
{
}

/// Toggling the layout twice gives the layout one started with, once gives another.
pub proof fn law_layout_toggle_involutive(l: LayoutMode)
    ensures
        layout_toggled(layout_toggled(l)) == l,
        layout_toggled(l) != l,
{
}

proof fn lemma_matching_indices_exact(
    units: Seq<UnitView>,
    needle: Seq<char>,
    f: StateFilter,
    n: nat,
)
    requires
        n <= units.len(),
        units.len() <= usize::MAX,
    ensures
        forall|k: int|
            0 <= k < matching_indices(units, needle, f, n).len() ==> {
                let i = #[trigger] matching_indices(units, needle, f, n)[k];
                i < n && unit_matches(units[i as int], needle, f)
            },
        forall|k: int, l: int|
            0 <= k < l < matching_indices(units, needle, f, n).len() ==> #[trigger] matching_indices(
                units,
                needle,
                f,
                n,
            )[k] < #[trigger] matching_indices(units, needle, f, n)[l],
        forall|i: int|
            0 <= i < n && unit_matches(#[trigger] units[i], needle, f) ==> matching_indices(
                units,
                needle,
                f,
                n,
            ).contains(i as usize),
    decreases n,
{
    if n > 0 {
        lemma_matching_indices_exact(units, needle, f, (n - 1) as nat);
        let before = matching_indices(units, needle, f, (n - 1) as nat);
        let all = matching_indices(units, needle, f, n);
        assert forall|k: int| 0 <= k < all.len() implies {
            let i = #[trigger] all[k];
            i < n && unit_matches(units[i as int], needle, f)
        } by {
            if k < before.len() {
                assert(all[k] == before[k]);
            }
        }
        assert forall|k: int, l: int| 0 <= k < l < all.len() implies #[trigger] all[k]
            < #[trigger] all[l] by {
            if l < before.len() {
                assert(all[k] == before[k] && all[l] == before[l]);
            } else {
                assert(all[k] == before[k]);
            }
        }
        assert forall|i: int| 0 <= i < n && unit_matches(#[trigger] units[i], needle, f) implies all.contains(
            i as usize,
        ) by {
            if i < n - 1 {
                let k = choose|k: int| 0 <= k < before.len() && before[k] == i as usize;
                assert(all[k] == before[k]);
            } else {
                assert(all[all.len() - 1] == i as usize);
            }
        }
    }
}

/// The visible rows are exactly the units that pass both filters, each once,
/// in list order.
pub proof fn law_visible_rows_are_the_matching_units(
    units: Seq<UnitView>,
    name_filter: Seq<char>,
    f: StateFilter,
)
    requires
        units.len() <= usize::MAX,
    ensures
        forall|k: int|
            0 <= k < filtered_indices_for(units, name_filter, f).len() ==> {
                let i = #[trigger] filtered_indices_for(units, name_filter, f)[k];
                i < units.len() && unit_matches(units[i as int], lowercase(name_filter), f)
            },
        forall|k: int, l: int|
            0 <= k < l < filtered_indices_for(units, name_filter, f).len() ==> #[trigger] filtered_indices_for(
                units,
                name_filter,
                f,
            )[k] < #[trigger] filtered_indices_for(units, name_filter, f)[l],
        forall|i: int|
            0 <= i < units.len() && unit_matches(#[trigger] units[i], lowercase(name_filter), f)
                ==> filtered_indices_for(units, name_filter, f).contains(i as usize),
{
    lemma_matching_indices_exact(units, lowercase(name_filter), f, units.len());
}

/// While the help is shown a key changes at most whether the help is shown and
/// its scroll offset, and asks for no work.
pub proof fn law_help_keys_touch_only_the_help(s: AppView, key: Key)
    requires
        s.show_help,
    ensures
        s.after_key(key).0 == (AppView {
            show_help: s.after_key(key).0.show_help,
            help_scroll: s.after_key(key).0.help_scroll,
            ..s
        }),
        s.after_key(key).1 == EffectView::Nothing,
{
}

/// While the name filter is typed, typing a character and then erasing it
/// gives back the same filter and the same visible rows.
pub proof fn law_typing_then_erasing_restores_the_filter(s: AppView, c: char)
    requires
        s.wf(),
        !s.show_help,
        s.filter_input_mode,
    ensures
        s.after_key(Key::Char(c)).0.after_key(Key::Backspace).0.name_filter == s.name_filter,
        s.after_key(Key::Char(c)).0.after_key(Key::Backspace).0.filtered == s.filtered,
{
    assert(s.name_filter.push(c).drop_last() =~= s.name_filter);
}

/// Right after the logs are refreshed they are not due again until the refresh
/// interval passes (or something marks them or moves the selection).
pub proof fn law_logs_not_due_right_after_refresh(s: AppView, fetched: Seq<Seq<char>>)
    ensures
        !s.after_logs(fetched).logs_due(false),
{
}

/// The logs are drawn at an offset no further than the bottom.
pub proof fn law_effective_scroll_within_bottom(logs_scroll: u16, follow: bool, max_scroll: u16)
    ensures
        effective_scroll_spec(logs_scroll, follow, max_scroll) <= max_scroll,
        follow ==> effective_scroll_spec(logs_scroll, follow, max_scroll) == max_scroll,
{
}

proof fn lemma_find_named_complete(
    units: Seq<UnitView>,
    filtered: Seq<usize>,
    name: Seq<char>,
    v: nat,
    w: int,
)
    requires
        v <= w < filtered.len(),
        filtered[w] < units.len(),
        units[filtered[w] as int].name == name,
    ensures
        match find_named(units, filtered, name, v) {
            Some(x) => v <= x <= w && filtered[x as int] < units.len()
                && units[filtered[x as int] as int].name == name,
            None => false,
        },
    decreases filtered.len() - v,
{
    if v < w {
        if !(filtered[v as int] < units.len() && units[filtered[v as int] as int].name == name) {
            lemma_find_named_complete(units, filtered, name, v + 1, w);
        }
    }
}

/// After a refresh, the unit that was selected stays selected whenever a unit
/// of that name is still visible (the first such row, should the name repeat).
pub proof fn law_refresh_keeps_the_selected_unit(
    s: AppView,
    units: Seq<UnitView>,
    updated_at: Seq<char>,
    name: Seq<char>,
    v: int,
)
    requires
        s.wf(),
        units.len() <= usize::MAX,
        s.selected_name() == Some(name),
        0 <= v < s.after_units(units, updated_at).filtered.len(),
        s.after_units(units, updated_at).units[s.after_units(
            units,
            updated_at,
        ).filtered[v] as int].name == name,
    ensures
        s.after_units(units, updated_at).selected_name() == Some(name),
{
    let t = s.after_units(units, updated_at);
    let sorted = crate::units::sorted_by_name(units);
    let r = (AppView { units: sorted, ..s }).rebuilt();
    assert(t.units == sorted && t.filtered == r.filtered);
    lemma_filtered_indices_in_range(t.units, t.name_filter, t.state_filter);
    lemma_find_named_complete(t.units, t.filtered, name, 0, v);
    let w = find_named(sorted, r.filtered, name, 0)->Some_0;
    assert(crate::units::sorted_by_name(units).len() == units.len()) by {
        crate::units::lemma_sorted_by_name_permutes(units);
    }
    assert(w < t.filtered.len());
    assert(t.selected == w as usize);
    assert(t.selected_index() == Some(w as int));
}

/// A clamped selection is a row that exists (row 0 when there is none), and
/// clamping never moves the selection further down.
pub proof fn law_clamped_selection_is_a_row(selected: int, len: int)
    requires
        0 <= selected,
    ensures
        len > 0 ==> 0 <= clamp_spec(selected, len) < len,
        len <= 0 ==> clamp_spec(selected, len) == 0,
        clamp_spec(selected, len) <= selected,
        0 <= selected < len ==> clamp_spec(selected, len) == selected,
{
}

proof fn lemma_all_match(units: Seq<UnitView>, needle: Seq<char>, n: nat)
    requires
        needle.len() == 0,
        n <= units.len(),
        units.len() <= usize::MAX,
    ensures
        matching_indices(units, needle, StateFilter::All, n) == Seq::new(n, |i: int| i as usize),
    decreases n,
{
    if n > 0 {
        lemma_all_match(units, needle, (n - 1) as nat);
        assert(Seq::new((n - 1) as nat, |i: int| i as usize).push((n - 1) as usize) =~= Seq::new(
            n,
            |i: int| i as usize,
        ));
    } else {
        assert(Seq::new(0, |i: int| i as usize) =~= Seq::<usize>::empty());
    }
}

/// With no state filter and a name filter that lowercases to nothing, every
/// unit is visible, in list order.
pub proof fn law_no_filter_shows_every_unit(units: Seq<UnitView>, name_filter: Seq<char>)
    requires
        lowercase(name_filter).len() == 0,
        units.len() <= usize::MAX,
    ensures
        filtered_indices_for(units, name_filter, StateFilter::All) == Seq::new(
            units.len(),
            |i: int| i as usize,
        ),
{
    lemma_all_match(units, lowercase(name_filter), units.len());
}

proof fn lemma_find_named_none(
    units: Seq<UnitView>,
    filtered: Seq<usize>,
    name: Seq<char>,
    v: nat,
)
    requires
        forall|w: int|
            v <= w < filtered.len() ==> !(#[trigger] filtered[w] < units.len()
                && units[filtered[w] as int].name == name),
    ensures
        find_named(units, filtered, name, v) is None,
    decreases filtered.len() - v,
{
    if v < filtered.len() {
        lemma_find_named_none(units, filtered, name, v + 1);
    }
}

/// A unit that passes the state filter is visible when the lowercased filter
/// text stands at any position `i` of its lowercased name or description.
pub proof fn law_text_anywhere_makes_visible(
    name_lower: Seq<char>,
    description_lower: Seq<char>,
    needle_lower: Seq<char>,
    f: StateFilter,
    a: UnitActiveState,
    i: int,
)
    requires
        state_filter_matches(f, a),
        0 <= i,
        (i + needle_lower.len() <= name_lower.len() && name_lower.subrange(
            i,
            i + needle_lower.len(),
        ) == needle_lower) || (i + needle_lower.len() <= description_lower.len()
            && description_lower.subrange(i, i + needle_lower.len()) == needle_lower),
    ensures
        visible_by_lowered(name_lower, description_lower, needle_lower, f, a),
{
    if i + needle_lower.len() <= name_lower.len() && name_lower.subrange(
        i,
        i + needle_lower.len(),
    ) == needle_lower {
        assert(crate::text::occurs_at(name_lower, needle_lower, i));
    } else {
        assert(crate::text::occurs_at(description_lower, needle_lower, i));
    }
}

/// An empty filter text hides nothing that passes the state filter; a unit
/// that fails the state filter is never visible; and a visible unit holds the
/// filter text somewhere in its name or description (or the text is empty).
pub proof fn law_visibility_needs_state_and_text(
    name_lower: Seq<char>,
    description_lower: Seq<char>,
    needle_lower: Seq<char>,
    f: StateFilter,
    a: UnitActiveState,
)
    ensures
        state_filter_matches(f, a) && needle_lower.len() == 0 ==> visible_by_lowered(
            name_lower,
            description_lower,
            needle_lower,
            f,
            a,
        ),
        !state_filter_matches(f, a) ==> !visible_by_lowered(
            name_lower,
            description_lower,
            needle_lower,
            f,
            a,
        ),
        visible_by_lowered(name_lower, description_lower, needle_lower, f, a) ==> needle_lower.len()
            == 0 || contains_seq(name_lower, needle_lower) || contains_seq(
            description_lower,
            needle_lower,
        ),
{
}

/// The state filter lets through exactly the units it names: every unit for
/// "all", and for the others exactly the units in that active state.
pub proof fn law_state_filter_passes_exactly_its_state(a: UnitActiveState)
    ensures
        state_filter_matches(StateFilter::All, a),
        state_filter_matches(StateFilter::Active, a) <==> a == UnitActiveState::Active,
        state_filter_matches(StateFilter::Inactive, a) <==> a == UnitActiveState::Inactive,
        state_filter_matches(StateFilter::Failed, a) <==> a == UnitActiveState::Failed,
{
}

/// Restoring the selection: when some visible row holds a unit of the
/// remembered name, the result is the first such row; when none does, the
/// result is the fallback row if it is visible, the last visible row if the
/// fallback lies beyond them, and row 0 when nothing is visible.
pub proof fn law_restore_selection(
    units: Seq<UnitView>,
    filtered: Seq<usize>,
    name: Seq<char>,
    fallback: int,
)
    requires
        0 <= fallback,
    ensures
        (exists|v: int|
            0 <= v < filtered.len() && #[trigger] filtered[v] < units.len() && units[filtered[v] as int].name
                == name) ==> {
            let r = restore_spec(units, filtered, name, fallback);
            &&& 0 <= r < filtered.len()
            &&& filtered[r] < units.len()
            &&& units[filtered[r] as int].name == name
            &&& forall|w: int|
                0 <= w < r ==> !(#[trigger] filtered[w] < units.len() && units[filtered[w] as int].name
                    == name)
        },
        (forall|v: int|
            0 <= v < filtered.len() ==> !(#[trigger] filtered[v] < units.len()
                && units[filtered[v] as int].name == name)) ==> restore_spec(
            units,
            filtered,
            name,
            fallback,
        ) == if filtered.len() == 0 {
            0
        } else if fallback < filtered.len() {
            fallback
        } else {
            filtered.len() - 1
        },
{
    if exists|v: int|
        0 <= v < filtered.len() && #[trigger] filtered[v] < units.len() && units[filtered[v] as int].name
            == name {
        let v = choose|v: int|
            0 <= v < filtered.len() && #[trigger] filtered[v] < units.len() && units[filtered[v] as int].name
                == name;
        lemma_find_named_complete(units, filtered, name, 0, v);
        lemma_find_named_first(units, filtered, name, 0);
    }
    if forall|v: int|
        0 <= v < filtered.len() ==> !(#[trigger] filtered[v] < units.len()
            && units[filtered[v] as int].name == name) {
        lemma_find_named_none(units, filtered, name, 0);
    }
}

proof fn lemma_find_named_first(
    units: Seq<UnitView>,
    filtered: Seq<usize>,
    name: Seq<char>,
    v: nat,
)
    ensures
        match find_named(units, filtered, name, v) {
            Some(x) => forall|w: int|
                v <= w < x ==> !(#[trigger] filtered[w] < units.len()
                    && units[filtered[w] as int].name == name),
            None => true,
        },
    decreases filtered.len() - v,
{
    if v < filtered.len() {
        lemma_find_named_first(units, filtered, name, v + 1);
    }
}

/// While the help is shown, Esc, F1, 'h' and 'q' close it and every other key
/// leaves it shown.
pub proof fn law_help_closing_keys(s: AppView, key: Key)
    requires
        s.show_help,
    ensures
        !s.after_key(key).0.show_help <==> (key == Key::Esc || key == Key::F(1) || key
            == Key::Char('h') || key == Key::Char('q')),
{
}

/// With neither the help nor the filter input taking keys, each action key
/// asks for its action exactly when a unit is selected, and names the selected
/// unit; otherwise it asks for nothing. It changes no part of the state.
pub proof fn law_action_keys_target_the_selected_unit(s: AppView, name: Seq<char>)
    requires
        !s.show_help,
        !s.filter_input_mode,
    ensures
        s.after_key(Key::Char('s')).1 == (EffectView::RunAction {
            action: UnitAction::Start,
            unit_name: name,
        }) <==> s.selected_name() == Some(name),
        s.after_key(Key::Char('t')).1 == (EffectView::RunAction {
            action: UnitAction::Stop,
            unit_name: name,
        }) <==> s.selected_name() == Some(name),
        s.after_key(Key::Char('R')).1 == (EffectView::RunAction {
            action: UnitAction::Restart,
            unit_name: name,
        }) <==> s.selected_name() == Some(name),
        s.after_key(Key::Char('L')).1 == (EffectView::RunAction {
            action: UnitAction::Reload,
            unit_name: name,
        }) <==> s.selected_name() == Some(name),
        s.selected_name() is None ==> s.after_key(Key::Char('s')).1 == EffectView::Nothing
            && s.after_key(Key::Char('t')).1 == EffectView::Nothing && s.after_key(
            Key::Char('R'),
        ).1 == EffectView::Nothing && s.after_key(Key::Char('L')).1 == EffectView::Nothing,
        s.after_key(Key::Char('s')).0 == s,
        s.after_key(Key::Char('t')).0 == s,
        s.after_key(Key::Char('R')).0 == s,
        s.after_key(Key::Char('L')).0 == s,
{
}

/// Fresh logs: with a unit selected the panel shows exactly the fetched lines,
/// or "No logs found" when none were fetched; with no unit selected it shows
/// "No unit selected". The logs are then recorded as those of the selection.
pub proof fn law_fetched_logs_are_shown(s: AppView, fetched: Seq<Seq<char>>)
    ensures
        s.selected_name() is Some && fetched.len() > 0 ==> s.after_logs(fetched).logs_lines
            == fetched,
        s.selected_name() is Some && fetched.len() == 0 ==> s.after_logs(fetched).logs_lines
            == seq!["No logs found"@],
        s.selected_name() is None ==> s.after_logs(fetched).logs_lines == seq![
            "No unit selected"@,
        ],
        s.after_logs(fetched).logged_unit_name == s.selected_name(),
        s.after_logs(fetched).selected_name() == s.selected_name(),
        !s.after_logs(fetched).logs_dirty,
{
}

/// In normal mode: 'q' asks to quit, 'h' and F1 open the help at its top,
/// '/' starts typing the name filter, 'r' asks for a refresh and changes
/// nothing, F2 moves to the next state filter and shows exactly the units that
/// pass it, F3 switches the layout; none of them asks for other work.
pub proof fn law_normal_mode_keys(s: AppView)
    requires
        !s.show_help,
        !s.filter_input_mode,
    ensures
        s.after_key(Key::Char('q')).0.should_quit,
        s.after_key(Key::Char('q')).1 == EffectView::Nothing,
        s.after_key(Key::Char('h')).0.show_help && s.after_key(Key::Char('h')).0.help_scroll == 0,
        s.after_key(Key::F(1)).0.show_help && s.after_key(Key::F(1)).0.help_scroll == 0,
        s.after_key(Key::Char('/')).0.filter_input_mode,
        s.after_key(Key::Char('/')).0.name_filter == s.name_filter,
        s.after_key(Key::Char('/')).0.filtered == s.filtered,
        s.after_key(Key::Char('r')) == (s, EffectView::RefreshUnits),
        s.after_key(Key::F(2)).0.state_filter == filter_cycled(s.state_filter),
        s.after_key(Key::F(2)).0.filtered == filtered_indices_for(
            s.units,
            s.name_filter,
            filter_cycled(s.state_filter),
        ),
        s.after_key(Key::F(2)).1 == EffectView::Nothing,
        s.after_key(Key::F(3)).0.layout_mode != s.layout_mode,
        s.after_key(Key::F(3)).0.units == s.units && s.after_key(Key::F(3)).0.filtered
            == s.filtered,
        s.after_key(Key::Tab).0.focus_block == focus_next(s.focus_block),
        s.after_key(Key::BackTab).0.focus_block == focus_prev(s.focus_block),
        !s.should_quit ==> !s.after_key(Key::Char('x')).0.should_quit,
{
}

/// While the name filter is typed: a character is appended to it, Backspace
/// removes its last character (if any), and in both cases exactly the units
/// matching the new filter are shown; Enter and Esc stop typing and keep the
/// filter; no key quits or asks for work, not even 'q'.
pub proof fn law_filter_input_keys(s: AppView, c: char, key: Key)
    requires
        !s.show_help,
        s.filter_input_mode,
    ensures
        s.after_key(Key::Char(c)).0.name_filter == s.name_filter.push(c),
        s.after_key(Key::Char(c)).0.filter_input_mode,
        s.after_key(Key::Char(c)).0.filtered == filtered_indices_for(
            s.units,
            s.name_filter.push(c),
            s.state_filter,
        ),
        s.name_filter.len() > 0 ==> s.after_key(Key::Backspace).0.name_filter
            == s.name_filter.take(s.name_filter.len() - 1),
        s.name_filter.len() == 0 ==> s.after_key(Key::Backspace).0.name_filter == s.name_filter,
        s.after_key(Key::Backspace).0.filtered == filtered_indices_for(
            s.units,
            s.after_key(Key::Backspace).0.name_filter,
            s.state_filter,
        ),
        !s.after_key(Key::Enter).0.filter_input_mode,
        !s.after_key(Key::Esc).0.filter_input_mode,
        s.after_key(Key::Enter).0.name_filter == s.name_filter,
        s.after_key(Key::Esc).0.filtered == s.filtered,
        s.after_key(key).1 == EffectView::Nothing,
        s.after_key(key).0.should_quit == s.should_quit,
        s.after_key(key).0.units == s.units,
{
    assert(s.name_filter.len() > 0 ==> s.name_filter.drop_last() =~= s.name_filter.take(
        s.name_filter.len() - 1,
    ));
}

/// Moving through the unit rows: down goes one row further unless on the last,
/// up one row back unless on the first, page keys move by eight rows held within
/// the rows, 'g' goes to the first row and 'G' to the last.
pub proof fn law_unit_row_movement(s: AppView)
    requires
        s.wf(),
        !s.show_help,
        !s.filter_input_mode,
        s.focus_block == FocusBlock::Units,
        s.filtered.len() > 0,
        s.filtered.len() <= usize::MAX,
    ensures
        s.after_key(Key::Down).0.selected == if s.selected + 1 < s.filtered.len() {
            s.selected + 1
        } else {
            s.selected as int
        },
        s.after_key(Key::Up).0.selected == if s.selected > 0 {
            s.selected - 1
        } else {
            0
        },
        s.after_key(Key::PageDown).0.selected == if s.selected + 8 < s.filtered.len() {
            s.selected + 8
        } else {
            s.filtered.len() - 1
        },
        s.after_key(Key::PageUp).0.selected == if s.selected >= 8 {
            s.selected - 8
        } else {
            0
        },
        s.after_key(Key::Char('g')).0.selected == 0,
        s.after_key(Key::Char('G')).0.selected == s.filtered.len() - 1,
        s.after_key(Key::Down).0.wf() && s.after_key(Key::Up).0.wf(),
        s.after_key(Key::Down).0.filtered == s.filtered,
{
}

/// Scrolling the logs: up stops following and moves one line back (not below
/// 0), 'g' stops following at the top, 'G' follows again from the bottom, and
/// down while following changes nothing.
pub proof fn law_logs_scrolling(s: AppView)
    requires
        !s.show_help,
        !s.filter_input_mode,
        s.focus_block == FocusBlock::Logs,
    ensures
        !s.after_key(Key::Up).0.logs_follow,
        s.after_key(Key::Up).0.logs_scroll == if s.logs_scroll > 0 {
            s.logs_scroll - 1
        } else {
            0
        },
        !s.after_key(Key::Char('g')).0.logs_follow && s.after_key(Key::Char('g')).0.logs_scroll
            == 0,
        s.after_key(Key::Char('G')).0.logs_follow,
        s.after_key(Key::Char('G')).0.logs_scroll == u16::MAX,
        s.logs_follow ==> s.after_key(Key::Down).0 == s,
        !s.logs_follow ==> s.after_key(Key::Down).0.logs_scroll == if s.logs_scroll < u16::MAX {
            s.logs_scroll + 1
        } else {
            u16::MAX as int
        },
{
}

/// A refresh shows the new units sorted by name (the same units, each as often
/// as listed), filtered by the current filters, keeps the state well-formed,
/// records the time stamp, marks the logs due, and leaves the filters, focus,
/// layout, help and status as they were.
pub proof fn law_refresh_result(s: AppView, units: Seq<UnitView>, updated_at: Seq<char>)
    requires
        s.wf(),
        units.len() <= usize::MAX,
    ensures
        is_sorted_by_name(s.after_units(units, updated_at).units),
        s.after_units(units, updated_at).units.to_multiset() == units.to_multiset(),
        s.after_units(units, updated_at).filtered == filtered_indices_for(
            s.after_units(units, updated_at).units,
            s.name_filter,
            s.state_filter,
        ),
        s.after_units(units, updated_at).wf(),
        s.after_units(units, updated_at).last_updated_at == updated_at,
        s.after_units(units, updated_at).logs_dirty,
        s.after_units(units, updated_at).name_filter == s.name_filter,
        s.after_units(units, updated_at).state_filter == s.state_filter,
        s.after_units(units, updated_at).focus_block == s.focus_block,
        s.after_units(units, updated_at).status == s.status,
        s.after_units(units, updated_at).show_help == s.show_help,
{
    let t = s.after_units(units, updated_at);
    lemma_sorted_by_name_is_sorted(units);
    lemma_sorted_by_name_permutes(units);
    lemma_filtered_indices_in_range(t.units, t.name_filter, t.state_filter);
    let sorted = crate::units::sorted_by_name(units);
    let r = (AppView { units: sorted, ..s }).rebuilt();
    assert(t.filtered == r.filtered);
    match s.selected_name() {
        Some(name) => {
            crate::app::lemma_find_named_in_range_pub(sorted, r.filtered, name, 0);
        },
        None => {},
    }
}

/// When the selected unit changes, the details go back to the top, the logs
/// follow from the bottom and are due; when it stays, nothing changes.
pub proof fn law_selection_change_resets_panels(s: AppView, previous: Option<Seq<char>>)
    ensures
        previous != s.selected_name() ==> {
            let t = s.marked_after(previous);
            &&& t.details_scroll == 0
            &&& t.logs_follow
            &&& t.logs_scroll == u16::MAX
            &&& t.logs_dirty
            &&& t.units == s.units && t.filtered == s.filtered && t.selected == s.selected
        },
        previous == s.selected_name() ==> s.marked_after(previous) == s,
{
}

/// The logs are due when marked so or when the selection is not the unit last
/// logged; with neither, they are due exactly when a unit is selected and the
/// interval has passed.
pub proof fn law_when_logs_are_due(s: AppView, interval_elapsed: bool)
    ensures
        s.logs_dirty ==> s.logs_due(interval_elapsed),
        s.selected_name() != s.logged_unit_name ==> s.logs_due(interval_elapsed),
        !s.logs_dirty && s.selected_name() == s.logged_unit_name ==> (s.logs_due(
            interval_elapsed,
        ) <==> (s.selected_name() is Some && interval_elapsed)),
{
}

/// Lexicographic order: a proper prefix sorts first, and otherwise the first
/// differing character decides.
pub proof fn law_lexicographic_order(a: Seq<char>, b: Seq<char>, i: int)
    requires
        0 <= i <= a.len(),
        i <= b.len(),
        a.take(i) == b.take(i),
    ensures
        i == a.len() && i < b.len() ==> seq_lt(a, b),
        i < a.len() && i < b.len() && (a[i] as int) < (b[i] as int) ==> seq_lt(a, b),
        i < a.len() && i < b.len() && (a[i] as int) < (b[i] as int) ==> !seq_lt(b, a),
    decreases i,
{
    if i > 0 {
        assert(a[0] == a.take(i)[0] && b[0] == b.take(i)[0]);
        assert(a.drop_first().take(i - 1) =~= a.take(i).drop_first());
        assert(b.drop_first().take(i - 1) =~= b.take(i).drop_first());
        law_lexicographic_order(a.drop_first(), b.drop_first(), i - 1);
    }
}

/// The number that a string of decimal digits stands for.
pub open spec fn digits_value(s: Seq<char>) -> int
    decreases s.len(),
{
    if s.len() == 0 {
        0
    } else {
        digits_value(s.drop_last()) * 10 + (s.last() as int - '0' as int)
    }
}

proof fn lemma_digit_value(d: nat)
    requires
        d < 10,
    ensures
        digit_char(d) as int - '0' as int == d,
        '0' <= digit_char(d) <= '9',
{
    assert('0' as int == 48);
    assert('9' as int == 57);
    if d == 0 { assert(digit_char(d) as int == 48); }
    else if d == 1 { assert(digit_char(d) as int == 49); }
    else if d == 2 { assert(digit_char(d) as int == 50); }
    else if d == 3 { assert(digit_char(d) as int == 51); }
    else if d == 4 { assert(digit_char(d) as int == 52); }
    else if d == 5 { assert(digit_char(d) as int == 53); }
    else if d == 6 { assert(digit_char(d) as int == 54); }
    else if d == 7 { assert(digit_char(d) as int == 55); }
    else if d == 8 { assert(digit_char(d) as int == 56); }
    else { assert(digit_char(d) as int == 57); }
}

/// Decimal notation reads back as the number it was written for, uses only the
/// digits 0 to 9, and starts with 0 only for zero itself.
pub proof fn law_decimal_reads_back(n: nat)
    ensures
        digits_value(decimal(n)) == n,
        forall|i: int| 0 <= i < decimal(n).len() ==> '0' <= #[trigger] decimal(n)[i] <= '9',
        decimal(n).len() >= 1,
        decimal(n)[0] == '0' ==> n == 0,
    decreases n,
{
    lemma_digit_value((n % 10) as nat);
    if n < 10 {
        assert(decimal(n).drop_last() =~= Seq::<char>::empty());
        assert(n % 10 == n);
        assert(digits_value(decimal(n)) == digits_value(Seq::<char>::empty()) * 10 + (
        decimal(n).last() as int - '0' as int));
    }
    if n >= 10 {
        law_decimal_reads_back(n / 10);
        let d = decimal(n / 10);
        assert(decimal(n).drop_last() =~= d);
        assert(decimal(n).last() == digit_char((n % 10) as nat));
        assert(digits_value(decimal(n)) == digits_value(d) * 10 + (n % 10));
        assert(n == (n / 10) * 10 + n % 10);
        assert(decimal(n)[0] == d[0]);
        assert forall|i: int| 0 <= i < decimal(n).len() implies '0' <= #[trigger] decimal(n)[i]
            <= '9' by {
            if i < d.len() {
                assert(decimal(n)[i] == d[i]);
            }
        }
    }
}

/// Different actions call different manager methods and are reported with
/// different words.
pub proof fn law_actions_are_told_apart(a: UnitAction, b: UnitAction)
    requires
        a != b,
    ensures
        action_method(a) != action_method(b),
        action_label(a) != action_label(b),
{
    reveal_strlit("StartUnit");
    reveal_strlit("StopUnit");
    reveal_strlit("RestartUnit");
    reveal_strlit("ReloadUnit");
    reveal_strlit("start");
    reveal_strlit("stop");
    reveal_strlit("restart");
    reveal_strlit("reload");
    assert("StartUnit"@[2] != "StopUnit"@[2]);
    assert("RestartUnit"@[2] != "ReloadUnit"@[2]);
    assert("start"@.len() != "stop"@.len() && "start"@.len() != "reload"@.len());
    assert("restart"@.len() != "reload"@.len() && "restart"@.len() != "stop"@.len());
    assert("stop"@.len() != "reload"@.len() && "start"@.len() != "restart"@.len());
    assert("StartUnit"@.len() != "RestartUnit"@.len() && "StartUnit"@.len() != "ReloadUnit"@.len());
    assert("StopUnit"@.len() != "RestartUnit"@.len() && "StopUnit"@.len() != "ReloadUnit"@.len());
}

/// The journal command selects the unit right after "-u" and the number of
/// entries right after "-n", and asks for the user journal exactly on the
/// session bus.
pub proof fn law_journal_command_names_unit_and_limit(k: BusKind, unit_name: Seq<char>, limit: nat)
    ensures
        ({
            let args = journalctl_args_spec(k, unit_name, limit);
            let o: int = if k == BusKind::Session {
                1
            } else {
                0
            };
            &&& args[o] == "-u"@ && args[o + 1] == unit_name
            &&& args[o + 2] == "-n"@ && args[o + 3] == decimal(limit)
            &&& (k == BusKind::Session <==> args[0] == "--user"@)
        }),
{
    reveal_strlit("--user");
    reveal_strlit("-u");
    assert("--user"@.len() != "-u"@.len());
}

/// The marker of a unit and the colour of its row agree: a failed unit is
/// marked "X" and drawn in the error colour, an active one "+" in the ok
/// colour, and a blank marker goes with the inactive colour.
pub proof fn law_marker_and_tone_agree(a: UnitActiveState)
    ensures
        (a == UnitActiveState::Failed) <==> tone_of(a) == StatusTone::Error,
        (a == UnitActiveState::Active) <==> tone_of(a) == StatusTone::Good,
        active_glyph_of(a) == " "@ <==> tone_of(a) == StatusTone::Inactive,
        active_glyph_of(a) == "X"@ <==> a == UnitActiveState::Failed,
        active_glyph_of(a) == "+"@ <==> a == UnitActiveState::Active,
{
    reveal_strlit(" ");
    reveal_strlit("X");
    reveal_strlit("+");
    reveal_strlit("~");
    reveal_strlit("#");
    assert(" "@[0] != "X"@[0] && " "@[0] != "+"@[0] && " "@[0] != "~"@[0] && " "@[0] != "#"@[0]);
    assert("X"@[0] != "+"@[0] && "X"@[0] != "~"@[0] && "X"@[0] != "#"@[0]);
    assert("+"@[0] != "~"@[0] && "+"@[0] != "#"@[0]);
}

proof fn lemma_scan_no_newline(s: Seq<char>)
    ensures
        forall|k: int, j: int|
            0 <= k < line_scan(s).0.len() && 0 <= j < line_scan(s).0[k].len() ==> #[trigger] line_scan(
                s,
            ).0[k][j] != '\n',
        forall|j: int| 0 <= j < line_scan(s).1.len() ==> #[trigger] line_scan(s).1[j] != '\n',
    decreases s.len(),
{
    if s.len() > 0 {
        lemma_scan_no_newline(s.drop_last());
        let (done, current) = line_scan(s.drop_last());
        if s.last() == '\n' {
            let line = strip_cr(current);
            assert forall|j: int| 0 <= j < line.len() implies line[j] != '\n' by {
                assert(line[j] == current[j]);
            }
            let nd = done.push(line);
            assert forall|k: int, j: int| 0 <= k < nd.len() && 0 <= j < nd[k].len() implies #[trigger] nd[k][j] != '\n' by {
                if k < done.len() {
                    assert(nd[k] == done[k]);
                }
            }
        } else {
            let nc = current.push(s.last());
            assert forall|j: int| 0 <= j < nc.len() implies #[trigger] nc[j] != '\n' by {
                if j < current.len() {
                    assert(nc[j] == current[j]);
                }
            }
        }
    }
}

/// Splitting output into lines leaves no newline inside any line, and text
/// without any newline is a single line (or none when empty).
pub proof fn law_lines_hold_no_newline(s: Seq<char>)
    ensures
        forall|k: int, j: int|
            0 <= k < lines_of(s).len() && 0 <= j < lines_of(s)[k].len() ==> #[trigger] lines_of(
                s,
            )[k][j] != '\n',
        (forall|j: int| 0 <= j < s.len() ==> #[trigger] s[j] != '\n') ==> lines_of(s) == (if s.len()
            == 0 {
            Seq::<Seq<char>>::empty()
        } else {
            seq![s]
        }),
{
    lemma_scan_no_newline(s);
    let (done, current) = line_scan(s);
    if current.len() > 0 {
        let all = done.push(current);
        assert forall|k: int, j: int| 0 <= k < all.len() && 0 <= j < all[k].len() implies #[trigger] all[k][j] != '\n' by {
            if k < done.len() {
                assert(all[k] == done[k]);
            }
        }
    }
    if forall|j: int| 0 <= j < s.len() ==> #[trigger] s[j] != '\n' {
        lemma_scan_without_newline(s);
    }
}

proof fn lemma_scan_without_newline(s: Seq<char>)
    requires
        forall|j: int| 0 <= j < s.len() ==> #[trigger] s[j] != '\n',
    ensures
        line_scan(s).0 == Seq::<Seq<char>>::empty(),
        line_scan(s).1 == s,
    decreases s.len(),
{
    if s.len() > 0 {
        assert forall|j: int| 0 <= j < s.drop_last().len() implies #[trigger] s.drop_last()[j] != '\n' by {
            assert(s.drop_last()[j] == s[j]);
        }
        lemma_scan_without_newline(s.drop_last());
        assert(s[s.len() - 1] != '\n');
        assert(s.drop_last().push(s.last()) =~= s);
    } else {
        assert(s =~= Seq::<char>::empty());
    }
}

/// Scrolling the help: up and down move one line, the page keys eight, never
/// below the top or past the largest offset; 'g' goes to the top and 'G' to
/// the largest offset. Other keys leave the offset alone.
pub proof fn law_help_scrolling(s: AppView)
    requires
        s.show_help,
    ensures
        s.after_key(Key::Up).0.help_scroll == if s.help_scroll >= 1 {
            s.help_scroll - 1
        } else {
            0
        },
        s.after_key(Key::Char('j')).0.help_scroll == if s.help_scroll < u16::MAX {
            s.help_scroll + 1
        } else {
            u16::MAX as int
        },
        s.after_key(Key::PageUp).0.help_scroll == if s.help_scroll >= 8 {
            s.help_scroll - 8
        } else {
            0
        },
        s.after_key(Key::PageDown).0.help_scroll == if s.help_scroll as int + 8 <= u16::MAX {
            s.help_scroll + 8
        } else {
            u16::MAX as int
        },
        s.after_key(Key::Char('g')).0.help_scroll == 0,
        s.after_key(Key::Char('G')).0.help_scroll == u16::MAX,
        s.after_key(Key::Tab).0.help_scroll == s.help_scroll,
{
}

/// New logs reset the details scroll and follow the logs when the selection is
/// another unit than the one last logged; for the same unit they keep the
/// details scroll, and keep following if they did or keep the logs offset if not.
pub proof fn law_logs_refresh_scrolling(s: AppView, fetched: Seq<Seq<char>>)
    ensures
        s.selected_name() != s.logged_unit_name ==> {
            let t = s.after_logs(fetched);
            t.details_scroll == 0 && t.logs_follow && t.logs_scroll == u16::MAX
        },
        s.selected_name() == s.logged_unit_name ==> {
            let t = s.after_logs(fetched);
            &&& t.details_scroll == s.details_scroll
            &&& t.logs_follow == s.logs_follow
            &&& t.logs_scroll == if s.logs_follow {
                u16::MAX
            } else {
                s.logs_scroll
            }
        },
{
}

/// The browser starts well-formed with nothing listed, nothing selected, no
/// help, no filter, and its logs due.
pub proof fn law_initial_state(connection_label: Seq<char>)
    ensures
        initial_view(connection_label).wf(),
        initial_view(connection_label).units.len() == 0,
        initial_view(connection_label).selected_name() is None,
        !initial_view(connection_label).show_help,
        !initial_view(connection_label).filter_input_mode,
        initial_view(connection_label).name_filter.len() == 0,
        initial_view(connection_label).state_filter == StateFilter::All,
        initial_view(connection_label).logs_due(false),
        !initial_view(connection_label).should_quit,
{
    assert(filtered_indices_for(seq![], seq![], StateFilter::All) =~= Seq::<usize>::empty());
}

/// A panel whose lines all fit cannot scroll; otherwise (below 65536) it can
/// scroll exactly far enough to show the last line at the bottom, the borders
/// taking two rows.
pub proof fn law_panel_scroll_limit(line_count: nat, area_height: u16)
    ensures
        area_height >= 2 && line_count <= area_height - 2 ==> max_scroll_spec(line_count, area_height) == 0,
        area_height >= 2 && area_height - 2 < line_count < area_height - 2 + 65536 ==> max_scroll_spec(
            line_count,
            area_height,
        ) + (area_height - 2) == line_count,
        area_height < 2 && line_count < 65536 ==> max_scroll_spec(line_count, area_height) == line_count,
{
}

} // verus!
