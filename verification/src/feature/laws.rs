//! Properties that hold of every feature gate table and every change to it.

use vstd::prelude::*;

use crate::feature::{
    assignment_outcome, assignments_outcome, feature_string_outcome, set_outcome, FeatureState,
    GateFault,
};
use crate::text::{first_index, is_first_index, is_white_space, split, trim, trim_end, trim_start};

verus! {

/// Setting a feature succeeds exactly when the feature is known and not
/// fixed, and afterwards the feature reads back with the value that was set.
pub proof fn law_set_reads_back(gates: Map<Seq<char>, FeatureState>, feature: Seq<char>, enabled: bool)
    ensures
        (set_outcome(gates, feature, enabled).1 is Ok) <==> (gates.contains_key(feature)
            && !gates[feature].read_only),
        set_outcome(gates, feature, enabled).1 is Ok ==> {
            &&& set_outcome(gates, feature, enabled).0.contains_key(feature)
            &&& set_outcome(gates, feature, enabled).0[feature].enabled == enabled
        },
{
}

/// A failed set leaves every feature gate as it was.
pub proof fn law_failed_set_changes_nothing(gates: Map<Seq<char>, FeatureState>, feature: Seq<char>, enabled: bool)
    ensures
        set_outcome(gates, feature, enabled).1 is Err ==> set_outcome(gates, feature, enabled).0
            == gates,
{
}

/// Setting a feature changes no other feature, adds no feature, and keeps
/// whether each feature is fixed or pre-release.
pub proof fn law_set_changes_only_its_feature(
    gates: Map<Seq<char>, FeatureState>,
    feature: Seq<char>,
    enabled: bool,
)
    ensures
        set_outcome(gates, feature, enabled).0.dom() == gates.dom(),
        forall|k: Seq<char>|
            #![trigger set_outcome(gates, feature, enabled).0[k]]
            gates.contains_key(k) && k != feature ==> set_outcome(gates, feature, enabled).0[k]
                == gates[k],
        forall|k: Seq<char>|
            #![trigger set_outcome(gates, feature, enabled).0[k]]
            gates.contains_key(k) ==> {
                &&& set_outcome(gates, feature, enabled).0[k].read_only == gates[k].read_only
                &&& set_outcome(gates, feature, enabled).0[k].pre_release == gates[k].pre_release
            },
{
    let after = set_outcome(gates, feature, enabled).0;
    assert(after.dom() =~= gates.dom());
}

/// Setting a feature twice to the same value is the same as setting it once.
pub proof fn law_set_idempotent(gates: Map<Seq<char>, FeatureState>, feature: Seq<char>, enabled: bool)
    ensures
        set_outcome(set_outcome(gates, feature, enabled).0, feature, enabled) == set_outcome(
            gates,
            feature,
            enabled,
        ),
{
    let once = set_outcome(gates, feature, enabled);
    if once.1 is Ok {
        assert(once.0.insert(feature, FeatureState { enabled, ..once.0[feature] }) =~= once.0);
    }
}

/// Of two sets of one feature, the later value is the one that stays.
pub proof fn law_last_set_wins(gates: Map<Seq<char>, FeatureState>, feature: Seq<char>, first: bool, second: bool)
    ensures
        set_outcome(set_outcome(gates, feature, first).0, feature, second) == set_outcome(
            gates,
            feature,
            second,
        ),
{
    let once = set_outcome(gates, feature, first);
    if once.1 is Ok {
        assert(set_outcome(once.0, feature, second).0 =~= set_outcome(gates, feature, second).0);
    }
}

/// Applying assignment texts never adds or removes a feature gate and never
/// changes a fixed feature gate or whether a feature is fixed or pre-release.
pub proof fn law_assignments_keep_fixed_gates(gates: Map<Seq<char>, FeatureState>, parts: Seq<Seq<char>>)
    ensures
        assignments_outcome(gates, parts).0.dom() == gates.dom(),
        forall|k: Seq<char>|
            #![trigger assignments_outcome(gates, parts).0[k]]
            gates.contains_key(k) ==> {
                &&& assignments_outcome(gates, parts).0[k].read_only == gates[k].read_only
                &&& assignments_outcome(gates, parts).0[k].pre_release == gates[k].pre_release
                &&& gates[k].read_only ==> assignments_outcome(gates, parts).0[k] == gates[k]
            },
    decreases parts.len(),
{
    if parts.len() > 0 {
        law_assignments_keep_fixed_gates(gates, parts.drop_last());
        let before = assignments_outcome(gates, parts.drop_last());
        if before.1 is Ok {
            let t = trim(parts.last());
            if t.len() > 0 {
                if let Some(k) = first_index(t, '=') {
                    law_set_changes_only_its_feature(before.0, t.take(k), true);
                    law_set_changes_only_its_feature(before.0, t.take(k), false);
                    let name = t.take(k);
                    assert forall|x: Seq<char>| gates.contains_key(x) && gates[x].read_only implies
                        #[trigger] assignments_outcome(gates, parts).0[x] == gates[x] by {
                        if x == name {
                            assert(before.0[x].read_only);
                        } else {
                            assert(set_outcome(before.0, name, true).0[x] == before.0[x]);
                            assert(set_outcome(before.0, name, false).0[x] == before.0[x]);
                        }
                    }
                }
            }
        }
    }
}

/// A list of assignments text changes no fixed feature gate and adds or
/// removes none.
pub proof fn law_feature_string_keeps_fixed_gates(gates: Map<Seq<char>, FeatureState>, s: Seq<char>)
    ensures
        feature_string_outcome(gates, s).0.dom() == gates.dom(),
        forall|k: Seq<char>|
            #![trigger feature_string_outcome(gates, s).0[k]]
            gates.contains_key(k) && gates[k].read_only ==> feature_string_outcome(gates, s).0[k]
                == gates[k],
{
    law_assignments_keep_fixed_gates(gates, split(s, ','));
}

proof fn lemma_split_concat(a: Seq<char>, b: Seq<char>)
    ensures
        split(a + ","@ + b, ',') == split(a, ',') + split(b, ','),
    decreases b.len(),
{
    reveal_strlit(",");
    crate::text::lemma_split_nonempty(b, ',');
    if b.len() == 0 {
        assert((a + ","@ + b).drop_last() =~= a);
        assert(split(b, ',') =~= seq![Seq::<char>::empty()]);
    } else {
        let b0 = b.drop_last();
        lemma_split_concat(a, b0);
        crate::text::lemma_split_nonempty(b0, ',');
        assert((a + ","@ + b).drop_last() =~= a + ","@ + b0);
        assert((a + ","@ + b).last() == b.last());
        let pa = split(a, ',');
        let pb0 = split(b0, ',');
        if b.last() == ',' {
            assert(pa + pb0.push(Seq::<char>::empty()) =~= (pa + pb0).push(Seq::<char>::empty()));
        } else {
            let whole = pa + pb0;
            assert(pa + pb0.update(pb0.len() - 1, pb0.last().push(b.last())) =~= whole.update(
                whole.len() - 1,
                whole.last().push(b.last()),
            ));
        }
    }
}

proof fn lemma_assignments_concat(gates: Map<Seq<char>, FeatureState>, p: Seq<Seq<char>>, q: Seq<Seq<char>>)
    ensures
        assignments_outcome(gates, p + q) == ({
            let first = assignments_outcome(gates, p);
            if first.1 is Err {
                first
            } else {
                assignments_outcome(first.0, q)
            }
        }),
    decreases q.len(),
{
    if q.len() == 0 {
        assert(p + q =~= p);
    } else {
        lemma_assignments_concat(gates, p, q.drop_last());
        assert((p + q).drop_last() =~= p + q.drop_last());
        assert((p + q).last() == q.last());
    }
}

/// Applying `a` joined to `b` by a comma is applying `a` and then, if it
/// succeeded, `b`.
pub proof fn law_feature_string_join(gates: Map<Seq<char>, FeatureState>, a: Seq<char>, b: Seq<char>)
    ensures
        feature_string_outcome(gates, a + ","@ + b) == ({
            let first = feature_string_outcome(gates, a);
            if first.1 is Err {
                first
            } else {
                feature_string_outcome(first.0, b)
            }
        }),
{
    lemma_split_concat(a, b);
    lemma_assignments_concat(gates, split(a, ','), split(b, ','));
}

proof fn lemma_split_without_separator(s: Seq<char>, sep: char)
    requires
        !s.contains(sep),
    ensures
        split(s, sep) == seq![s],
    decreases s.len(),
{
    if s.len() == 0 {
        assert(s =~= Seq::<char>::empty());
        assert(split(s, sep) =~= seq![s]);
    } else {
        let t = s.drop_last();
        assert(!t.contains(sep)) by {
            if t.contains(sep) {
                let j = choose|j: int| 0 <= j < t.len() && t[j] == sep;
                assert(s[j] == sep);
            }
        }
        lemma_split_without_separator(t, sep);
        assert(s.last() != sep) by {
            assert(s[s.len() - 1] == s.last());
        }
        assert(t.push(s.last()) =~= s);
    }
}

/// The text `name=true` (or `name=false`), for a name without commas or
/// equals signs that does not start with white space, sets that feature gate
/// to that value.
pub proof fn law_single_assignment(gates: Map<Seq<char>, FeatureState>, name: Seq<char>, enabled: bool)
    requires
        !name.contains(','),
        !name.contains('='),
        name.len() == 0 || !is_white_space(name[0]),
    ensures
        feature_string_outcome(
            gates,
            name + "="@ + (if enabled {
                "true"@
            } else {
                "false"@
            }),
        ) == set_outcome(gates, name, enabled),
{
    reveal_strlit("=");
    reveal_strlit("true");
    reveal_strlit("false");
    let value = if enabled {
        "true"@
    } else {
        "false"@
    };
    let s = name + "="@ + value;
    assert(!s.contains(',')) by {
        if s.contains(',') {
            let j = choose|j: int| 0 <= j < s.len() && s[j] == ',';
            if j < name.len() {
                assert(name[j] == ',');
            }
        }
    }
    lemma_split_without_separator(s, ',');
    assert(split(s, ',').last() == s);
    assert(split(s, ',').drop_last() =~= Seq::<Seq<char>>::empty());
    assert(trim_start(s) == s) by {
        if name.len() == 0 {
            assert(s[0] == '=');
        } else {
            assert(s[0] == name[0]);
        }
    }
    assert(trim_end(s) == s) by {
        assert(s.last() == 'e');
    }
    assert(trim(s) == s);
    assert(is_first_index(s, '=', name.len() as int)) by {
        assert forall|j: int| 0 <= j < name.len() implies s[j] != '=' by {
            assert(s[j] == name[j]);
        }
    }
    let k = choose|k: int| is_first_index(s, '=', k);
    if k < name.len() {
        assert(s[k] == name[k]);
    } else if k > name.len() {
        assert(s[name.len() as int] != '=');
    }
    assert(first_index(s, '=') == Some(name.len() as int));
    assert(s.take(name.len() as int) =~= name);
    assert(s.skip(name.len() as int + 1) =~= value);
    assert(value == "true"@ <==> enabled);
    assert(assignment_outcome(gates, s) == set_outcome(gates, name, enabled));
    assert(assignments_outcome(gates, Seq::<Seq<char>>::empty()) == (gates, Ok::<(), GateFault>(())));
    assert(assignments_outcome(gates, split(s, ',')) == assignment_outcome(gates, s));
}

/// The empty list of assignments changes nothing and succeeds.
pub proof fn law_empty_feature_string(gates: Map<Seq<char>, FeatureState>)
    ensures
        feature_string_outcome(gates, Seq::<char>::empty()) == (gates, Ok::<(), GateFault>(())),
{
    let parts = split(Seq::<char>::empty(), ',');
    assert(parts =~= seq![Seq::<char>::empty()]);
    assert(parts.drop_last() =~= Seq::<Seq<char>>::empty());
    assert(trim(Seq::<char>::empty()) =~= Seq::<char>::empty());
    assert(parts.last() == Seq::<char>::empty());
    assert(assignment_outcome(gates, parts.last()) == (gates, Ok::<(), GateFault>(())));
    assert(assignments_outcome(gates, parts.drop_last()) == (gates, Ok::<(), GateFault>(())));
}

} // verus!
