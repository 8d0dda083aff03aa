//! Feature gates: named switches that turn features on or off, some of which
//! are fixed: their setting cannot be changed.

use vstd::prelude::*;

use crate::text::{
    chars_of, find_char, first_index, range_is, split, split_ranges, substring, string_views,
    trim, trim_bounds,
};

pub mod kubernetes;
pub mod laws;

verus! {

/// Error of a feature gate operation.
#[derive(Debug)]
pub enum FeatureGateError {
    /// No feature gate has this name.
    UnknownFeature(String),
    /// The feature gate is fixed and cannot be changed.
    ReadOnly(String),
    /// The assignment text (first) does not give a boolean value (second).
    InvalidValue(String, String),
}

/// What a [`FeatureGateError`] says, over text values.
pub enum GateFault {
    /// No feature gate has this name.
    UnknownFeature(Seq<char>),
    /// The feature gate is fixed.
    ReadOnly(Seq<char>),
    /// The assignment text does not give a boolean value.
    InvalidValue(Seq<char>, Seq<char>),
}

impl View for FeatureGateError {
    type V = GateFault;

    open spec fn view(&self) -> GateFault {
        match self {
            FeatureGateError::UnknownFeature(n) => GateFault::UnknownFeature(n@),
            FeatureGateError::ReadOnly(n) => GateFault::ReadOnly(n@),
            FeatureGateError::InvalidValue(p, v) => GateFault::InvalidValue(p@, v@),
        }
    }
}

impl FeatureGateError {
    /// The human-readable description of this error.
    pub fn message(&self) -> (m: String)
        ensures
            m@ == match self@ {
                GateFault::UnknownFeature(n) => "unknown feature gate: "@ + n,
                GateFault::ReadOnly(n) => "feature gate "@ + n
                    + " is read-only and cannot be modified"@,
                GateFault::InvalidValue(p, v) => "invalid value for feature gate "@ + p
                    + ": expected bool, got "@ + v,
            },
    {
        match self {
            FeatureGateError::UnknownFeature(n) => {
                let mut m = "unknown feature gate: ".to_owned();
                m.append(n.as_str());
                m
            },
            FeatureGateError::ReadOnly(n) => {
                let mut m = "feature gate ".to_owned();
                m.append(n.as_str());
                m.append(" is read-only and cannot be modified");
                m
            },
            FeatureGateError::InvalidValue(p, v) => {
                let mut m = "invalid value for feature gate ".to_owned();
                m.append(p.as_str());
                m.append(": expected bool, got ");
                m.append(v.as_str());
                m
            },
        }
    }
}

/// The outcome of an operation that returns nothing, over text values.
pub open spec fn outcome_view(r: Result<(), FeatureGateError>) -> Result<(), GateFault> {
    match r {
        Ok(()) => Ok(()),
        Err(e) => Err(e@),
    }
}

/// A set of feature gates that can be queried and changed.
pub trait FeatureGate: Send + Sync {
    /// The known feature gates, each with whether it is on.
    spec fn gate_view(&self) -> Map<Seq<char>, bool>;

    /// Whether `feature` is a known feature gate that is on.
    fn enabled(&self, feature: &str) -> (r: bool)
        ensures
            r == (self.gate_view().contains_key(feature@) && self.gate_view()[feature@]),
    ;

    /// Turns `feature` on or off; fails for an unknown or fixed feature gate.
    fn set(&mut self, feature: &str, enabled: bool) -> (r: Result<(), FeatureGateError>)
        ensures
            !old(self).gate_view().contains_key(feature@) ==> outcome_view(r) == Err::<
                (),
                GateFault,
            >(GateFault::UnknownFeature(feature@)),
            r is Ok ==> final(self).gate_view() == old(self).gate_view().insert(
                feature@,
                enabled,
            ),
            r is Err ==> final(self).gate_view() == old(self).gate_view(),
    ;

    /// Every known feature gate with whether it is on, each name once.
    fn all_features(&self) -> (r: Vec<(String, bool)>)
        ensures
            pair_names(r@).no_duplicates(),
            pair_table(r@) == self.gate_view(),
    ;

    /// Whether `feature` is a known feature gate.
    fn contains(&self, feature: &str) -> (r: bool)
        ensures
            r == self.gate_view().contains_key(feature@),
    ;
}

/// The names in a list of name/value pairs.
pub open spec fn pair_names(s: Seq<(String, bool)>) -> Seq<Seq<char>> {
    s.map_values(|p: (String, bool)| p.0@)
}

/// The table that a list of name/value pairs with distinct names describes.
pub open spec fn pair_table(s: Seq<(String, bool)>) -> Map<Seq<char>, bool> {
    Map::new(
        |k: Seq<char>| pair_names(s).contains(k),
        |k: Seq<char>| s[pair_names(s).index_of(k)].1,
    )
}

/// The state of one feature gate.
#[derive(Clone, Copy, Debug, PartialEq, Eq, Structural)]
pub struct FeatureState {
    /// Whether the feature is on.
    pub enabled: bool,
    /// Whether the feature gate is fixed.
    pub read_only: bool,
    /// Whether the feature is pre-release.
    pub pre_release: bool,
}

/// The table of feature states that a list of
/// `(name, enabled, read_only, pre_release)` entries describes; a later entry
/// for a name replaces an earlier one.
pub open spec fn feature_table(list: Seq<(&str, bool, bool, bool)>) -> Map<Seq<char>, FeatureState>
    decreases list.len(),
{
    if list.len() == 0 {
        Map::empty()
    } else {
        let e = list.last();
        feature_table(list.drop_last()).insert(
            e.0@,
            FeatureState { enabled: e.1, read_only: e.2, pre_release: e.3 },
        )
    }
}

/// The result of setting `feature` to `enabled` in `gates`: the new table and
/// the outcome.
pub open spec fn set_outcome(gates: Map<Seq<char>, FeatureState>, feature: Seq<char>, enabled: bool) -> (
    Map<Seq<char>, FeatureState>,
    Result<(), GateFault>,
) {
    if !gates.contains_key(feature) {
        (gates, Err(GateFault::UnknownFeature(feature)))
    } else if gates[feature].read_only {
        (gates, Err(GateFault::ReadOnly(feature)))
    } else {
        (gates.insert(feature, FeatureState { enabled, ..gates[feature] }), Ok(()))
    }
}

/// The result of applying one `name=value` assignment text to `gates`.
/// Surrounding white space is ignored and an empty assignment does nothing.
pub open spec fn assignment_outcome(gates: Map<Seq<char>, FeatureState>, part: Seq<char>) -> (
    Map<Seq<char>, FeatureState>,
    Result<(), GateFault>,
) {
    let t = trim(part);
    if t.len() == 0 {
        (gates, Ok(()))
    } else {
        match first_index(t, '=') {
            None => (gates, Err(GateFault::InvalidValue(t, "missing ="@))),
            Some(k) => {
                let name = t.take(k);
                let value = t.skip(k + 1);
                if value == "true"@ {
                    set_outcome(gates, name, true)
                } else if value == "false"@ {
                    set_outcome(gates, name, false)
                } else {
                    (gates, Err(GateFault::InvalidValue(t, value)))
                }
            },
        }
    }
}

/// The result of applying the assignments `parts` in order, stopping at the
/// first one that fails.
pub open spec fn assignments_outcome(gates: Map<Seq<char>, FeatureState>, parts: Seq<Seq<char>>) -> (
    Map<Seq<char>, FeatureState>,
    Result<(), GateFault>,
)
    decreases parts.len(),
{
    if parts.len() == 0 {
        (gates, Ok(()))
    } else {
        let before = assignments_outcome(gates, parts.drop_last());
        if before.1 is Err {
            before
        } else {
            assignment_outcome(before.0, parts.last())
        }
    }
}

/// The result of applying a comma-separated list of `name=value` assignments.
pub open spec fn feature_string_outcome(gates: Map<Seq<char>, FeatureState>, s: Seq<char>) -> (
    Map<Seq<char>, FeatureState>,
    Result<(), GateFault>,
) {
    assignments_outcome(gates, split(s, ','))
}

/// Feature gates held in memory, each with its own state. A change needs
/// exclusive access (`&mut self`); the table is not shared between copies, so
/// holders that must see each other's changes share one gate set behind a
/// lock of their own (the library holds no lock, since Verus does not reason
/// about the standard library's locks).
#[derive(Debug)]
pub struct MemoryFeatureGate {
    entries: Vec<(String, FeatureState)>,
}

/// The names of a list of named feature states.
pub open spec fn entry_names(s: Seq<(String, FeatureState)>) -> Seq<Seq<char>> {
    s.map_values(|e: (String, FeatureState)| e.0@)
}

/// The name/state table of a list of named feature states with distinct names.
pub open spec fn entry_table(s: Seq<(String, FeatureState)>) -> Map<Seq<char>, FeatureState> {
    Map::new(
        |k: Seq<char>| entry_names(s).contains(k),
        |k: Seq<char>| s[entry_names(s).index_of(k)].1,
    )
}

impl View for MemoryFeatureGate {
    type V = Map<Seq<char>, FeatureState>;

    closed spec fn view(&self) -> Map<Seq<char>, FeatureState> {
        entry_table(self.entries@)
    }
}

proof fn lemma_entry_lookup(s: Seq<(String, FeatureState)>, i: int)
    requires
        entry_names(s).no_duplicates(),
        0 <= i < s.len(),
    ensures
        entry_table(s).contains_key(s[i].0@),
        entry_table(s)[s[i].0@] == s[i].1,
        entry_names(s).index_of(s[i].0@) == i,
{
    let names = entry_names(s);
    assert(names[i] == s[i].0@);
    assert(names.contains(s[i].0@));
    let j = names.index_of(s[i].0@);
    assert(names[j] == names[i]);
}

proof fn lemma_entry_absent(s: Seq<(String, FeatureState)>, k: Seq<char>)
    requires
        forall|i: int| 0 <= i < s.len() ==> (#[trigger] s[i]).0@ != k,
    ensures
        !entry_table(s).contains_key(k),
{
    if entry_names(s).contains(k) {
        let j = choose|j: int| 0 <= j < entry_names(s).len() && entry_names(s)[j] == k;
        assert(s[j].0@ == k);
    }
}

proof fn lemma_entry_update(s: Seq<(String, FeatureState)>, i: int, e: (String, FeatureState))
    requires
        entry_names(s).no_duplicates(),
        0 <= i < s.len(),
        e.0@ == s[i].0@,
    ensures
        entry_names(s.update(i, e)) == entry_names(s),
        entry_table(s.update(i, e)) == entry_table(s).insert(e.0@, e.1),
{
    let t = s.update(i, e);
    assert(entry_names(t) =~= entry_names(s));
    let a = entry_table(t);
    let b = entry_table(s).insert(e.0@, e.1);
    lemma_entry_lookup(s, i);
    lemma_entry_lookup(t, i);
    assert forall|k: Seq<char>| #[trigger] a.contains_key(k) implies a[k] == b[k] by {
        let j = entry_names(t).index_of(k);
        assert(entry_names(t)[j] == k);
        lemma_entry_lookup(t, j);
        if j != i {
            lemma_entry_lookup(s, j);
            assert(t[j] == s[j]);
        }
    }
    assert(a =~= b);
}

proof fn lemma_entry_push(s: Seq<(String, FeatureState)>, e: (String, FeatureState))
    requires
        entry_names(s).no_duplicates(),
        !entry_names(s).contains(e.0@),
    ensures
        entry_names(s.push(e)) == entry_names(s).push(e.0@),
        entry_names(s.push(e)).no_duplicates(),
        entry_table(s.push(e)) == entry_table(s).insert(e.0@, e.1),
{
    let t = s.push(e);
    let names = entry_names(s);
    let tn = entry_names(t);
    assert(tn =~= names.push(e.0@));
    assert forall|i: int, j: int| 0 <= i < tn.len() && 0 <= j < tn.len() && i != j implies tn[i]
        != tn[j] by {
        if i < names.len() && j < names.len() {
            assert(tn[i] == names[i] && tn[j] == names[j]);
        } else if i < names.len() {
            assert(names.contains(tn[i]));
        } else {
            assert(names.contains(tn[j]));
        }
    }
    let a = entry_table(t);
    let b = entry_table(s).insert(e.0@, e.1);
    assert forall|k: Seq<char>| #[trigger] a.contains_key(k) <==> b.contains_key(k) by {
        if names.contains(k) {
            let j = names.index_of(k);
            assert(tn[j] == k);
        }
        if k == e.0@ {
            assert(tn[names.len() as int] == e.0@);
        }
        if tn.contains(k) && k != e.0@ {
            let j = tn.index_of(k);
            assert(j < names.len());
            assert(names[j] == k);
        }
    }
    assert forall|k: Seq<char>| #[trigger] a.contains_key(k) implies a[k] == b[k] by {
        if k == e.0@ {
            lemma_entry_lookup(t, s.len() as int);
        } else {
            let j = names.index_of(k);
            assert(names[j] == k);
            lemma_entry_lookup(s, j);
            assert(t[j] == s[j]);
            lemma_entry_lookup(t, j);
        }
    }
    assert(a =~= b);
}

/// The position of `feature` in `entries`, if it is there.
fn position_of(entries: &Vec<(String, FeatureState)>, feature: &str) -> (r: Option<usize>)
    ensures
        match r {
            Some(i) => i < entries@.len() && entries@[i as int].0@ == feature@,
            None => forall|j: int| 0 <= j < entries@.len() ==> (#[trigger] entries@[j]).0@ != feature@,
        },
{
    let key = feature.to_owned();
    let mut i: usize = 0;
    while i < entries.len()
        invariant
            0 <= i <= entries@.len(),
            key@ == feature@,
            forall|j: int| 0 <= j < i ==> (#[trigger] entries@[j]).0@ != feature@,
        decreases entries@.len() - i,
    {
        if entries[i].0 == key {
            return Some(i);
        }
        i = i + 1;
    }
    None
}

impl MemoryFeatureGate {
    #[verifier::type_invariant]
    spec fn names_distinct(self) -> bool {
        entry_names(self.entries@).no_duplicates()
    }

    /// Builds feature gates from `(name, enabled, read_only, pre_release)`
    /// entries; a later entry for a name replaces an earlier one.
    pub fn new(features: &[(&str, bool, bool, bool)]) -> (g: MemoryFeatureGate)
        ensures
            g@ == feature_table(features@),
    {
        let mut entries: Vec<(String, FeatureState)> = Vec::new();
        assert(entry_names(entries@) =~= Seq::<Seq<char>>::empty());
        assert(entry_table(entries@) =~= Map::<Seq<char>, FeatureState>::empty());
        let mut k: usize = 0;
        while k < features.len()
            invariant
                0 <= k <= features@.len(),
                entry_names(entries@).no_duplicates(),
                entry_table(entries@) == feature_table(features@.take(k as int)),
            decreases features@.len() - k,
        {
            let (name, enabled, read_only, pre_release) = features[k];
            let state = FeatureState { enabled, read_only, pre_release };
            assert(features@.take(k + 1).drop_last() =~= features@.take(k as int));
            let entry = (name.to_owned(), state);
            match position_of(&entries, name) {
                Some(i) => {
                    proof {
                        lemma_entry_update(entries@, i as int, entry);
                    }
                    entries.set(i, entry);
                },
                None => {
                    proof {
                        if entry_names(entries@).contains(name@) {
                            let j = entry_names(entries@).index_of(name@);
                            assert(entries@[j].0@ == name@);
                        }
                        lemma_entry_push(entries@, entry);
                    }
                    entries.push(entry);
                },
            }
            k = k + 1;
        }
        assert(features@.take(features@.len() as int) =~= features@);
        MemoryFeatureGate { entries }
    }
}

/// Which features of `gates` are on.
pub open spec fn enabled_view(gates: Map<Seq<char>, FeatureState>) -> Map<Seq<char>, bool> {
    gates.map_values(|s: FeatureState| s.enabled)
}

/// Once an assignment fails, the later ones are not applied.
proof fn lemma_outcome_stops_at_error(gates: Map<Seq<char>, FeatureState>, parts: Seq<Seq<char>>, n: int)
    requires
        0 <= n <= parts.len(),
        assignments_outcome(gates, parts.take(n)).1 is Err,
    ensures
        assignments_outcome(gates, parts) == assignments_outcome(gates, parts.take(n)),
    decreases parts.len(),
{
    if n == parts.len() {
        assert(parts.take(n) =~= parts);
    } else {
        assert(parts.drop_last().take(n) =~= parts.take(n));
        lemma_outcome_stops_at_error(gates, parts.drop_last(), n);
    }
}

impl MemoryFeatureGate {
    /// Turns `feature` on.
    pub fn enable(&mut self, feature: &str) -> (r: Result<(), FeatureGateError>)
        ensures
            (final(self)@, outcome_view(r)) == set_outcome(old(self)@, feature@, true),
    {
        self.set(feature, true)
    }

    /// Turns `feature` off.
    pub fn disable(&mut self, feature: &str) -> (r: Result<(), FeatureGateError>)
        ensures
            (final(self)@, outcome_view(r)) == set_outcome(old(self)@, feature@, false),
    {
        self.set(feature, false)
    }

    /// Applies a comma-separated list of `Feature=true` / `Feature=false`
    /// assignments in order; stops at the first one that fails, keeping the
    /// ones before it.
    pub fn set_from_string(&mut self, s: &str) -> (r: Result<(), FeatureGateError>)
        ensures
            (final(self)@, outcome_view(r)) == feature_string_outcome(old(self)@, s@),
    {
        let v = chars_of(s);
        let ranges = split_ranges(&v, ',');
        let ghost parts = split(v@, ',');
        let ghost start = self@;
        let mut idx: usize = 0;
        while idx < ranges.len()
            invariant
                0 <= idx <= ranges@.len(),
                v@ == s@,
                start == old(self)@,
                parts == split(v@, ','),
                ranges@.len() == parts.len(),
                forall|j: int|
                    0 <= j < ranges@.len() ==> {
                        &&& (#[trigger] ranges@[j]).0 <= ranges@[j].1 <= v@.len()
                        &&& v@.subrange(ranges@[j].0 as int, ranges@[j].1 as int) == parts[j]
                    },
                (self@, Ok::<(), GateFault>(())) == assignments_outcome(start, parts.take(idx as int)),
            decreases ranges@.len() - idx,
        {
            let ghost before = self@;
            let (a, b) = ranges[idx];
            assert(parts.take(idx + 1).drop_last() =~= parts.take(idx as int));
            assert(parts.take(idx + 1).last() == parts[idx as int]);
            let (lo, hi) = trim_bounds(&v, a, b);
            let ghost t = v@.subrange(lo as int, hi as int);
            if lo < hi {
                match find_char(&v, lo, hi, '=') {
                    None => {
                        let e = FeatureGateError::InvalidValue(
                            substring(s, lo, hi),
                            "missing =".to_owned(),
                        );
                        proof {
                            lemma_outcome_stops_at_error(start, parts, idx + 1);
                        }
                        return Err(e);
                    },
                    Some(k) => {
                        assert(t.take(k - lo) =~= v@.subrange(lo as int, k as int));
                        assert(t.skip(k - lo + 1) =~= v@.subrange(k + 1, hi as int));
                        let enabled = if range_is(&v, k + 1, hi, "true") {
                            true
                        } else if range_is(&v, k + 1, hi, "false") {
                            false
                        } else {
                            let e = FeatureGateError::InvalidValue(
                                substring(s, lo, hi),
                                substring(s, k + 1, hi),
                            );
                            proof {
                                lemma_outcome_stops_at_error(start, parts, idx + 1);
                            }
                            return Err(e);
                        };
                        let name = substring(s, lo, k);
                        let r = self.set(name.as_str(), enabled);
                        if r.is_err() {
                            proof {
                                lemma_outcome_stops_at_error(start, parts, idx + 1);
                            }
                            return r;
                        }
                    },
                }
            }
            idx = idx + 1;
        }
        assert(parts.take(parts.len() as int) =~= parts);
        Ok(())
    }

    /// The names of the pre-release feature gates, each once.
    pub fn pre_release_features(&self) -> (r: Vec<String>)
        ensures
            string_views(r@).no_duplicates(),
            string_views(r@).to_set() == self@.dom().filter(|k: Seq<char>| self@[k].pre_release),
    {
        proof {
            use_type_invariant(self);
        }
        let mut r: Vec<String> = Vec::new();
        let mut i: usize = 0;
        while i < self.entries.len()
            invariant
                0 <= i <= self.entries@.len(),
                entry_names(self.entries@).no_duplicates(),
                string_views(r@).no_duplicates(),
                forall|k: Seq<char>|
                    #![trigger string_views(r@).contains(k)]
                    string_views(r@).contains(k) <==> exists|j: int|
                        0 <= j < i && (#[trigger] self.entries@[j]).0@ == k
                            && self.entries@[j].1.pre_release,
            decreases self.entries@.len() - i,
        {
            if self.entries[i].1.pre_release {
                let ghost old_r = string_views(r@);
                let name = self.entries[i].0.clone();
                proof {
                    if old_r.contains(name@) {
                        let j = choose|j: int|
                            0 <= j < i && (#[trigger] self.entries@[j]).0@ == name@
                                && self.entries@[j].1.pre_release;
                        assert(entry_names(self.entries@)[j] == entry_names(self.entries@)[i as int]);
                    }
                }
                r.push(name);
                proof {
                    let nr = string_views(r@);
                    assert(nr =~= old_r.push(name@));
                    assert forall|x: int, y: int| 0 <= x < nr.len() && 0 <= y < nr.len() && x != y implies nr[x] != nr[y] by {
                        if x < old_r.len() && y < old_r.len() {
                        } else if x < old_r.len() {
                            assert(old_r.contains(nr[x]));
                        } else {
                            assert(old_r.contains(nr[y]));
                        }
                    }
                    assert forall|k: Seq<char>| #![trigger nr.contains(k)] nr.contains(k) <==> exists|j: int|
                        0 <= j < i + 1 && (#[trigger] self.entries@[j]).0@ == k
                            && self.entries@[j].1.pre_release by {
                        if nr.contains(k) && k != name@ {
                            let x = choose|x: int| 0 <= x < nr.len() && nr[x] == k;
                            assert(x < old_r.len());
                            assert(old_r.contains(k));
                        }
                        if k == name@ {
                            assert(nr[old_r.len() as int] == k);
                        }
                        if !nr.contains(k) && exists|j: int|
                            0 <= j < i + 1 && (#[trigger] self.entries@[j]).0@ == k
                                && self.entries@[j].1.pre_release {
                            let j = choose|j: int|
                                0 <= j < i + 1 && (#[trigger] self.entries@[j]).0@ == k
                                    && self.entries@[j].1.pre_release;
                            if j < i {
                                assert(old_r.contains(k));
                                let x = choose|x: int| 0 <= x < old_r.len() && old_r[x] == k;
                                assert(nr[x] == k);
                            }
                        }
                    }
                }
            }
            i = i + 1;
        }
        proof {
            let a = string_views(r@).to_set();
            let b = self@.dom().filter(|k: Seq<char>| self@[k].pre_release);
            assert forall|k: Seq<char>| a.contains(k) <==> b.contains(k) by {
                if a.contains(k) {
                    let j = choose|j: int|
                        0 <= j < self.entries@.len() && (#[trigger] self.entries@[j]).0@ == k
                            && self.entries@[j].1.pre_release;
                    lemma_entry_lookup(self.entries@, j);
                }
                if b.contains(k) {
                    let j = entry_names(self.entries@).index_of(k);
                    assert(entry_names(self.entries@)[j] == k);
                    lemma_entry_lookup(self.entries@, j);
                }
            }
            assert(a =~= b);
        }
        r
    }

    /// The names of all known feature gates, each once.
    pub fn feature_names(&self) -> (r: Vec<String>)
        ensures
            string_views(r@).no_duplicates(),
            string_views(r@).to_set() == self@.dom(),
    {
        proof {
            use_type_invariant(self);
        }
        let mut r: Vec<String> = Vec::new();
        let mut i: usize = 0;
        while i < self.entries.len()
            invariant
                0 <= i <= self.entries@.len(),
                r@.len() == i,
                string_views(r@) == entry_names(self.entries@).take(i as int),
            decreases self.entries@.len() - i,
        {
            let name = self.entries[i].0.clone();
            r.push(name);
            assert(string_views(r@)[i as int] == entry_names(self.entries@)[i as int]);
            assert(string_views(r@) =~= entry_names(self.entries@).take(i + 1));
            i = i + 1;
        }
        proof {
            let names = entry_names(self.entries@);
            assert(names.take(names.len() as int) =~= names);
            assert(string_views(r@).to_set() =~= self@.dom());
        }
        r
    }
}

impl FeatureGate for MemoryFeatureGate {
    open spec fn gate_view(&self) -> Map<Seq<char>, bool> {
        enabled_view(self@)
    }

    fn enabled(&self, feature: &str) -> (r: bool)
        ensures
            r == (self@.contains_key(feature@) && self@[feature@].enabled),
    {
        proof {
            use_type_invariant(self);
        }
        match position_of(&self.entries, feature) {
            Some(i) => {
                proof {
                    lemma_entry_lookup(self.entries@, i as int);
                }
                self.entries[i].1.enabled
            },
            None => {
                proof {
                    lemma_entry_absent(self.entries@, feature@);
                }
                false
            },
        }
    }

    fn set(&mut self, feature: &str, enabled: bool) -> (r: Result<(), FeatureGateError>)
        ensures
            (final(self)@, outcome_view(r)) == set_outcome(old(self)@, feature@, enabled),
    {
        proof {
            use_type_invariant(&*self);
        }
        match position_of(&self.entries, feature) {
            None => {
                proof {
                    lemma_entry_absent(self.entries@, feature@);
                }
                Err(FeatureGateError::UnknownFeature(feature.to_owned()))
            },
            Some(i) => {
                proof {
                    lemma_entry_lookup(self.entries@, i as int);
                }
                let state = self.entries[i].1;
                if state.read_only {
                    return Err(FeatureGateError::ReadOnly(feature.to_owned()));
                }
                let entry = (feature.to_owned(), FeatureState { enabled, ..state });
                let mut entries: Vec<(String, FeatureState)> = Vec::new();
                std::mem::swap(&mut entries, &mut self.entries);
                proof {
                    lemma_entry_update(entries@, i as int, entry);
                }
                entries.set(i, entry);
                self.entries = entries;
                proof {
                    assert(enabled_view(self@) =~= enabled_view(old(self)@).insert(feature@, enabled));
                }
                Ok(())
            },
        }
    }

    fn all_features(&self) -> (r: Vec<(String, bool)>) {
        proof {
            use_type_invariant(self);
        }
        let mut r: Vec<(String, bool)> = Vec::new();
        let mut i: usize = 0;
        while i < self.entries.len()
            invariant
                0 <= i <= self.entries@.len(),
                r@.len() == i,
                forall|j: int|
                    0 <= j < i ==> (#[trigger] r@[j]).0@ == self.entries@[j].0@ && r@[j].1
                        == self.entries@[j].1.enabled,
            decreases self.entries@.len() - i,
        {
            r.push((self.entries[i].0.clone(), self.entries[i].1.enabled));
            i = i + 1;
        }
        proof {
            assert(pair_names(r@) =~= entry_names(self.entries@));
            let a = pair_table(r@);
            let b = enabled_view(self@);
            assert forall|k: Seq<char>| #[trigger] a.contains_key(k) implies a[k] == b[k] by {
                let j = pair_names(r@).index_of(k);
                assert(entry_names(self.entries@)[j] == k);
                lemma_entry_lookup(self.entries@, j);
            }
            assert(a =~= b);
        }
        r
    }

    fn contains(&self, feature: &str) -> (r: bool) {
        proof {
            use_type_invariant(self);
        }
        match position_of(&self.entries, feature) {
            Some(i) => {
                proof {
                    lemma_entry_lookup(self.entries@, i as int);
                }
                true
            },
            None => {
                proof {
                    lemma_entry_absent(self.entries@, feature@);
                }
                false
            },
        }
    }
}

} // verus!
