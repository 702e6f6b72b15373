//! The systemd unit model: load and active states as systemd reports them,
//! one row of the unit listing, and how a unit is shown.
use vstd::prelude::*;
use crate::text::{owned, str_eq, join2};

verus! {

broadcast use vstd::string::group_string_axioms;

/// Whether systemd could load a unit's configuration.
#[derive(Debug, Clone, Copy, PartialEq, Eq, Structural)]
pub enum UnitLoadState {
    Loaded,
    NotFound,
    BadSetting,
    Masked,
    Unknown,
}

/// The high-level activation state of a unit.
#[derive(Debug, Clone, Copy, PartialEq, Eq, Structural)]
pub enum UnitActiveState {
    Active,
    Inactive,
    Activating,
    Deactivating,
    Failed,
    Unknown,
}

/// The load state that systemd's text for it names (anything unrecognised is `Unknown`).
pub open spec fn load_state_from(s: Seq<char>) -> UnitLoadState {
    if s == "loaded"@ {
        UnitLoadState::Loaded
    } else if s == "not-found"@ {
        UnitLoadState::NotFound
    } else if s == "bad-setting"@ {
        UnitLoadState::BadSetting
    } else if s == "masked"@ {
        UnitLoadState::Masked
    } else {
        UnitLoadState::Unknown
    }
}

/// The active state that systemd's text for it names (anything unrecognised is `Unknown`).
pub open spec fn active_state_from(s: Seq<char>) -> UnitActiveState {
    if s == "active"@ {
        UnitActiveState::Active
    } else if s == "inactive"@ {
        UnitActiveState::Inactive
    } else if s == "activating"@ {
        UnitActiveState::Activating
    } else if s == "deactivating"@ {
        UnitActiveState::Deactivating
    } else if s == "failed"@ {
        UnitActiveState::Failed
    } else {
        UnitActiveState::Unknown
    }
}

/// The text of an active state.
pub open spec fn active_state_name(a: UnitActiveState) -> Seq<char> {
    match a {
        UnitActiveState::Active => "active"@,
        UnitActiveState::Inactive => "inactive"@,
        UnitActiveState::Activating => "activating"@,
        UnitActiveState::Deactivating => "deactivating"@,
        UnitActiveState::Failed => "failed"@,
        UnitActiveState::Unknown => "unknown"@,
    }
}

/// The variant name of a load state, as debug formatting writes it.
pub open spec fn load_state_variant_name(l: UnitLoadState) -> Seq<char> {
    match l {
        UnitLoadState::Loaded => "Loaded"@,
        UnitLoadState::NotFound => "NotFound"@,
        UnitLoadState::BadSetting => "BadSetting"@,
        UnitLoadState::Masked => "Masked"@,
        UnitLoadState::Unknown => "Unknown"@,
    }
}

/// The variant name of a load state in lower case, as the unit table shows it.
pub open spec fn load_state_column(l: UnitLoadState) -> Seq<char> {
    match l {
        UnitLoadState::Loaded => "loaded"@,
        UnitLoadState::NotFound => "notfound"@,
        UnitLoadState::BadSetting => "badsetting"@,
        UnitLoadState::Masked => "masked"@,
        UnitLoadState::Unknown => "unknown"@,
    }
}

/// The one-character marker of an active state in the unit table.
pub open spec fn active_glyph_of(a: UnitActiveState) -> Seq<char> {
    match a {
        UnitActiveState::Active => "+"@,
        UnitActiveState::Activating => "~"@,
        UnitActiveState::Deactivating => "#"@,
        UnitActiveState::Failed => "X"@,
        UnitActiveState::Inactive | UnitActiveState::Unknown => " "@,
    }
}

impl UnitLoadState {
    /// Reads systemd's text for a load state.
    pub fn from_raw(value: &str) -> (r: Self)
        ensures
            r == load_state_from(value@),
    {
        if str_eq(value, "loaded") {
            UnitLoadState::Loaded
        } else if str_eq(value, "not-found") {
            UnitLoadState::NotFound
        } else if str_eq(value, "bad-setting") {
            UnitLoadState::BadSetting
        } else if str_eq(value, "masked") {
            UnitLoadState::Masked
        } else {
            UnitLoadState::Unknown
        }
    }

    /// The variant name, as `{:?}` writes it.
    pub fn variant_name(self) -> (r: &'static str)
        ensures
            r@ == load_state_variant_name(self),
    {
        match self {
            UnitLoadState::Loaded => "Loaded",
            UnitLoadState::NotFound => "NotFound",
            UnitLoadState::BadSetting => "BadSetting",
            UnitLoadState::Masked => "Masked",
            UnitLoadState::Unknown => "Unknown",
        }
    }

    /// The variant name in lower case, as the unit table shows it.
    pub fn column_label(self) -> (r: &'static str)
        ensures
            r@ == load_state_column(self),
    {
        match self {
            UnitLoadState::Loaded => "loaded",
            UnitLoadState::NotFound => "notfound",
            UnitLoadState::BadSetting => "badsetting",
            UnitLoadState::Masked => "masked",
            UnitLoadState::Unknown => "unknown",
        }
    }
}

impl UnitActiveState {
    /// Reads systemd's text for an active state.
    pub fn from_raw(value: &str) -> (r: Self)
        ensures
            r == active_state_from(value@),
    {
        if str_eq(value, "active") {
            UnitActiveState::Active
        } else if str_eq(value, "inactive") {
            UnitActiveState::Inactive
        } else if str_eq(value, "activating") {
            UnitActiveState::Activating
        } else if str_eq(value, "deactivating") {
            UnitActiveState::Deactivating
        } else if str_eq(value, "failed") {
            UnitActiveState::Failed
        } else {
            UnitActiveState::Unknown
        }
    }

    /// systemd's text for this state.
    pub fn as_str(self) -> (r: &'static str)
        ensures
            r@ == active_state_name(self),
    {
        match self {
            UnitActiveState::Active => "active",
            UnitActiveState::Inactive => "inactive",
            UnitActiveState::Activating => "activating",
            UnitActiveState::Deactivating => "deactivating",
            UnitActiveState::Failed => "failed",
            UnitActiveState::Unknown => "unknown",
        }
    }
}

/// Reading back the text of an active state gives that state again.
pub proof fn active_state_text_round_trip(a: UnitActiveState)
    ensures
        active_state_from(active_state_name(a)) == a,
{
    reveal_strlit("active");
    reveal_strlit("inactive");
    reveal_strlit("activating");
    reveal_strlit("deactivating");
    reveal_strlit("failed");
    reveal_strlit("unknown");
    assert("active"@[0] == 'a' && "inactive"@[0] == 'i' && "activating"@[0] == 'a');
    assert("deactivating"@[0] == 'd' && "failed"@[0] == 'f' && "unknown"@[0] == 'u');
    assert("active"@.len() == 6 && "activating"@.len() == 10);
}

/// How the colour of a unit's row is chosen: by its active state.
#[derive(Debug, Clone, Copy, PartialEq, Eq, Structural)]
pub enum StatusTone {
    Good,
    Warning,
    Error,
    Inactive,
}

/// The tone of an active state.
pub open spec fn tone_of(a: UnitActiveState) -> StatusTone {
    match a {
        UnitActiveState::Active => StatusTone::Good,
        UnitActiveState::Activating | UnitActiveState::Deactivating => StatusTone::Warning,
        UnitActiveState::Failed => StatusTone::Error,
        UnitActiveState::Inactive | UnitActiveState::Unknown => StatusTone::Inactive,
    }
}

/// One unit as the manager lists it.
#[derive(Debug, Clone)]
pub struct SystemdUnit {
    pub name: String,
    pub description: String,
    pub load_state: UnitLoadState,
    pub active_state: UnitActiveState,
    pub sub_state: String,
    pub follows: String,
    pub path: String,
}

/// A unit, with its texts as character sequences.
pub struct UnitView {
    pub name: Seq<char>,
    pub description: Seq<char>,
    pub load_state: UnitLoadState,
    pub active_state: UnitActiveState,
    pub sub_state: Seq<char>,
    pub follows: Seq<char>,
    pub path: Seq<char>,
}

impl View for SystemdUnit {
    type V = UnitView;

    open spec fn view(&self) -> UnitView {
        UnitView {
            name: self.name@,
            description: self.description@,
            load_state: self.load_state,
            active_state: self.active_state,
            sub_state: self.sub_state@,
            follows: self.follows@,
            path: self.path@,
        }
    }
}

/// The views of a sequence of units.
pub open spec fn units_view(s: Seq<SystemdUnit>) -> Seq<UnitView> {
    s.map_values(|u: SystemdUnit| u@)
}

/// The characters of each string.
pub open spec fn strings_view(s: Seq<String>) -> Seq<Seq<char>> {
    s.map_values(|x: String| x@)
}

/// The lines that describe a unit in the details panel.
pub open spec fn unit_details(u: UnitView) -> Seq<Seq<char>> {
    seq![
        "Name: "@ + u.name,
        "Description: "@ + u.description,
        "Active: "@ + active_state_name(u.active_state),
        "Sub: "@ + u.sub_state,
        "Load: "@ + load_state_variant_name(u.load_state),
        "Follows: "@ + (if u.follows.len() == 0 { "-"@ } else { u.follows }),
        "Path: "@ + u.path,
    ]
}

/// The cells of a unit's row in the unit table.
pub open spec fn unit_row(u: UnitView) -> Seq<Seq<char>> {
    seq![
        u.name,
        active_state_name(u.active_state),
        u.sub_state,
        load_state_column(u.load_state),
        u.description,
        active_glyph_of(u.active_state),
    ]
}

impl SystemdUnit {
    /// Builds a unit from one row of the manager's unit listing: the texts of
    /// the load and active states are read, the others kept as they are.
    pub fn from_listing(
        name: String,
        description: String,
        load_state: &str,
        active_state: &str,
        sub_state: String,
        follows: String,
        path: String,
    ) -> (u: Self)
        ensures
            u.name@ == name@,
            u.description@ == description@,
            u.load_state == load_state_from(load_state@),
            u.active_state == active_state_from(active_state@),
            u.sub_state@ == sub_state@,
            u.follows@ == follows@,
            u.path@ == path@,
    {
        SystemdUnit {
            name,
            description,
            load_state: UnitLoadState::from_raw(load_state),
            active_state: UnitActiveState::from_raw(active_state),
            sub_state,
            follows,
            path,
        }
    }

    /// The marker of this unit's active state in the unit table.
    pub fn active_glyph(&self) -> (r: &'static str)
        ensures
            r@ == active_glyph_of(self.active_state),
    {
        match self.active_state {
            UnitActiveState::Active => "+",
            UnitActiveState::Activating => "~",
            UnitActiveState::Deactivating => "#",
            UnitActiveState::Failed => "X",
            UnitActiveState::Inactive | UnitActiveState::Unknown => " ",
        }
    }

    /// Which colour of the scheme this unit's row takes.
    pub fn status_tone(&self) -> (r: StatusTone)
        ensures
            r == tone_of(self.active_state),
    {
        match self.active_state {
            UnitActiveState::Active => StatusTone::Good,
            UnitActiveState::Activating | UnitActiveState::Deactivating => StatusTone::Warning,
            UnitActiveState::Failed => StatusTone::Error,
            UnitActiveState::Inactive | UnitActiveState::Unknown => StatusTone::Inactive,
        }
    }

    /// The lines that describe this unit in the details panel.
    pub fn details_lines(&self) -> (r: Vec<String>)
        ensures
            strings_view(r@) == unit_details(self@),
    {
        let mut r: Vec<String> = Vec::new();
        r.push(join2("Name: ", self.name.as_str()));
        r.push(join2("Description: ", self.description.as_str()));
        r.push(join2("Active: ", self.active_state.as_str()));
        r.push(join2("Sub: ", self.sub_state.as_str()));
        r.push(join2("Load: ", self.load_state.variant_name()));
        let follows = if self.follows.as_str().is_empty() {
            "-"
        } else {
            self.follows.as_str()
        };
        proof {
            reveal_strlit("-");
        }
        r.push(join2("Follows: ", follows));
        r.push(join2("Path: ", self.path.as_str()));
        assert(strings_view(r@) =~= unit_details(self@));
        r
    }

    /// The cells of this unit's row in the unit table.
    pub fn table_cells(&self) -> (r: Vec<String>)
        ensures
            strings_view(r@) == unit_row(self@),
    {
        let mut r: Vec<String> = Vec::new();
        r.push(owned(self.name.as_str()));
        r.push(owned(self.active_state.as_str()));
        r.push(owned(self.sub_state.as_str()));
        r.push(owned(self.load_state.column_label()));
        r.push(owned(self.description.as_str()));
        r.push(owned(self.active_glyph()));
        assert(strings_view(r@) =~= unit_row(self@));
        r
    }
}

/// The kinds of change the manager reports about its set of units.
#[derive(Debug, Clone, Copy, PartialEq, Eq, Structural)]
pub enum ManagerSignal {
    UnitNew,
    UnitRemoved,
}

} // verus!

verus! {

/// Inserts `x` into `s` after every trailing element whose name does not sort
/// after `x`'s: the step of a stable insertion sort by name.
pub open spec fn insert_by_name(s: Seq<UnitView>, x: UnitView) -> Seq<UnitView>
    decreases s.len(),
{
    if s.len() == 0 {
        seq![x]
    } else if crate::text::seq_lt(x.name, s.last().name) {
        insert_by_name(s.drop_last(), x).push(s.last())
    } else {
        s.push(x)
    }
}

/// The units ordered by name, units of equal name keeping their order: what a
/// stable sort by name gives.
pub open spec fn sorted_by_name(s: Seq<UnitView>) -> Seq<UnitView>
    decreases s.len(),
{
    if s.len() == 0 {
        s
    } else {
        insert_by_name(sorted_by_name(s.drop_last()), s.last())
    }
}

/// Names never decrease along the sequence.
pub open spec fn is_sorted_by_name(s: Seq<UnitView>) -> bool {
    forall|i: int, j: int| 0 <= i < j < s.len() ==> !crate::text::seq_lt(s[j].name, s[i].name)
}

proof fn lemma_insert_shape(s: Seq<UnitView>, x: UnitView) -> (k: int)
    ensures
        0 <= k <= s.len(),
        insert_by_name(s, x) == s.insert(k, x),
        forall|j: int| k <= j < s.len() ==> crate::text::seq_lt(x.name, #[trigger] s[j].name),
        k > 0 ==> !crate::text::seq_lt(x.name, s[k - 1].name),
    decreases s.len(),
{
    if s.len() == 0 {
        assert(s.insert(0, x) =~= seq![x]);
        0
    } else if crate::text::seq_lt(x.name, s.last().name) {
        let k = lemma_insert_shape(s.drop_last(), x);
        assert(s.drop_last().insert(k, x).push(s.last()) =~= s.insert(k, x));
        assert forall|j: int| k <= j < s.len() implies crate::text::seq_lt(
            x.name,
            #[trigger] s[j].name,
        ) by {
            if j < s.len() - 1 {
                assert(s.drop_last()[j] == s[j]);
            }
        }
        if k > 0 {
            assert(s.drop_last()[k - 1] == s[k - 1]);
        }
        k
    } else {
        assert(s.push(x) =~= s.insert(s.len() as int, x));
        s.len() as int
    }
}

/// Inserting by name into a sorted sequence keeps it sorted and adds exactly `x`.
pub proof fn lemma_insert_by_name_sorted(s: Seq<UnitView>, x: UnitView)
    requires
        is_sorted_by_name(s),
    ensures
        is_sorted_by_name(insert_by_name(s, x)),
        insert_by_name(s, x).to_multiset() == s.to_multiset().insert(x),
{
    let k = lemma_insert_shape(s, x);
    let t = s.insert(k, x);
    vstd::seq_lib::to_multiset_insert(s, k, x);
    assert forall|i: int, j: int| 0 <= i < j < t.len() implies !crate::text::seq_lt(
        t[j].name,
        t[i].name,
    ) by {
        if j < k {
            assert(t[i] == s[i] && t[j] == s[j]);
        } else if j == k {
            assert(t[i] == s[i]);
            if i < k - 1 {
                crate::text::lemma_seq_le_transitive(s[i].name, s[k - 1].name, x.name);
            }
        } else if i == k {
            assert(t[j] == s[j - 1]);
            lemma_seq_lt_asymmetric_helper(x.name, s[j - 1].name);
        } else if i < k {
            assert(t[i] == s[i] && t[j] == s[j - 1]);
        } else {
            assert(t[i] == s[i - 1] && t[j] == s[j - 1]);
        }
    }
}

proof fn lemma_seq_lt_asymmetric_helper(a: Seq<char>, b: Seq<char>)
    requires
        crate::text::seq_lt(a, b),
    ensures
        !crate::text::seq_lt(b, a),
{
    if crate::text::seq_lt(b, a) {
        crate::text::lemma_seq_lt_transitive(a, b, a);
        crate::text::lemma_seq_lt_irreflexive(a);
    }
}

/// Sorting by name yields names in non-decreasing order.
pub proof fn lemma_sorted_by_name_is_sorted(s: Seq<UnitView>)
    ensures
        is_sorted_by_name(sorted_by_name(s)),
    decreases s.len(),
{
    if s.len() > 0 {
        lemma_sorted_by_name_is_sorted(s.drop_last());
        lemma_insert_by_name_sorted(sorted_by_name(s.drop_last()), s.last());
    }
}

/// Sorting by name keeps exactly the same units, each as often as before.
pub proof fn lemma_sorted_by_name_permutes(s: Seq<UnitView>)
    ensures
        sorted_by_name(s).to_multiset() == s.to_multiset(),
        sorted_by_name(s).len() == s.len(),
    decreases s.len(),
{
    broadcast use vstd::seq_lib::group_to_multiset_ensures;
    if s.len() > 0 {
        lemma_sorted_by_name_permutes(s.drop_last());
        let k = lemma_insert_shape(sorted_by_name(s.drop_last()), s.last());
        vstd::seq_lib::to_multiset_insert(sorted_by_name(s.drop_last()), k, s.last());
        vstd::seq_lib::to_multiset_build(s.drop_last(), s.last());
        assert(s.drop_last().push(s.last()) =~= s);
    }
}

/// Sorts units by name, stably, as `sort_by` on the names does.
pub fn sort_units_by_name(units: Vec<SystemdUnit>) -> (r: Vec<SystemdUnit>)
    ensures
        units_view(r@) == sorted_by_name(units_view(units@)),
{
    let ghost orig = units_view(units@);
    let mut rest = units;
    let mut sorted: Vec<SystemdUnit> = Vec::new();
    assert(orig.take(0) =~= Seq::<UnitView>::empty());
    assert(orig.skip(0) =~= orig);
    while rest.len() > 0
        invariant
            rest.len() <= orig.len(),
            units_view(rest@) == orig.skip(orig.len() - rest.len()),
            units_view(sorted@) == sorted_by_name(orig.take(orig.len() - rest.len())),
        decreases rest.len(),
    {
        let ghost i = orig.len() - rest.len();
        let ghost old_rest = rest@;
        let x = rest.remove(0);
        assert(units_view(old_rest)[0] == old_rest[0]@);
        assert(orig.skip(i)[0] == orig[i]);
        assert(x@ == orig[i]);
        assert(units_view(rest@) =~= units_view(old_rest).drop_first());
        assert(orig.skip(i).drop_first() =~= orig.skip(i + 1));
        let ghost v = units_view(sorted@);
        let mut p = sorted.len();
        assert(v.take(p as int) =~= v);
        assert(v.skip(p as int) =~= Seq::<UnitView>::empty());
        while p > 0 && crate::text::str_lt(x.name.as_str(), sorted[p - 1].name.as_str())
            invariant
                p <= sorted.len(),
                v == units_view(sorted@),
                insert_by_name(v, x@) == insert_by_name(v.take(p as int), x@) + v.skip(p as int),
            decreases p,
        {
            assert(v.take(p as int).drop_last() =~= v.take(p - 1));
            assert(v.take(p as int).last() == v[p - 1]);
            assert(seq![v[p - 1]] + v.skip(p as int) =~= v.skip(p - 1));
            assert(insert_by_name(v.take(p - 1), x@).push(v[p - 1]) + v.skip(p as int)
                =~= insert_by_name(v.take(p - 1), x@) + v.skip(p - 1));
            p = p - 1;
        }
        if p == 0 {
            assert(insert_by_name(v.take(0), x@) =~= seq![x@]);
        } else {
            assert(v.take(p as int).last() == v[p - 1]);
        }
        assert(insert_by_name(v.take(p as int), x@) + v.skip(p as int) =~= v.insert(p as int, x@));
        sorted.insert(p, x);
        assert(units_view(sorted@) =~= v.insert(p as int, x@));
        assert(orig.take(i + 1).drop_last() =~= orig.take(i));
        assert(orig.take(i + 1).last() == orig[i]);
    }
    assert(orig.take(orig.len() as int) =~= orig);
    sorted
}

} // verus!
