//! The dispatcher: an ordered type switch over an `ErasedError`, followed by
//! an ordered match over the arms of the group whose type was found.
//!
//! A dispatch is described by a list of groups, one per declared concrete
//! type, and by one arm test `arm_matches(group, arm, value)` that tells
//! whether arm `arm` of group `group` (its pattern and guard) matches the
//! recovered value. The outcome names the branch to run.
use vstd::prelude::*;
use crate::carrier::ErasedError;

verus! {

/// One declared concrete type of a dispatch: its runtime tag and the number
/// of arms tried against a value of that type, before the group's fallback.
#[derive(Clone, Copy, Debug, PartialEq, Eq, Structural)]
pub struct Group {
    pub tag: u64,
    pub arms: usize,
}

/// The branch a dispatch selects.
#[derive(Clone, Copy, Debug, PartialEq, Eq, Structural)]
pub enum Outcome {
    /// Arm `arm` of group `group` matched.
    Arm { group: usize, arm: usize },
    /// The value has the type of group `group`, and none of its arms matched.
    GroupFallback { group: usize },
    /// No declared type is the value's type.
    CatchAll,
}

/// `g` is the first group, in declaration order, declared with `tag`.
pub open spec fn is_first_group(tag: u64, groups: Seq<Group>, g: int) -> bool {
    &&& 0 <= g < groups.len()
    &&& groups[g].tag == tag
    &&& forall|h: int| 0 <= h < g ==> #[trigger] groups[h].tag != tag
}

/// No group is declared with `tag`.
pub open spec fn no_group(tag: u64, groups: Seq<Group>) -> bool {
    forall|h: int| 0 <= h < groups.len() ==> #[trigger] groups[h].tag != tag
}

/// Arm `a` of group `g` is the first arm, from the top, that matches `value`.
pub open spec fn is_first_arm<V, F: Fn(usize, usize, &V) -> bool>(
    arm_matches: F,
    g: usize,
    value: V,
    a: usize,
) -> bool {
    &&& arm_matches.ensures((g, a, &value), true)
    &&& forall|b: usize| b < a ==> #[trigger] arm_matches.ensures((g, b, &value), false)
}

/// None of the first `n` arms of group `g` matches `value`.
pub open spec fn no_arm<V, F: Fn(usize, usize, &V) -> bool>(
    arm_matches: F,
    g: usize,
    value: V,
    n: usize,
) -> bool {
    forall|b: usize| b < n ==> #[trigger] arm_matches.ensures((g, b, &value), false)
}

/// The group an outcome names, if any.
pub open spec fn group_of(o: Outcome) -> Option<int> {
    match o {
        Outcome::Arm { group, .. } => Some(group as int),
        Outcome::GroupFallback { group } => Some(group as int),
        Outcome::CatchAll => None,
    }
}

/// `o` is the branch that dispatching `err` over `groups` selects: the first
/// group declared with the value's type decides, by its first matching arm or
/// else by its own fallback; without such a group the catch-all runs.
pub open spec fn selects<V, F: Fn(usize, usize, &V) -> bool>(
    err: ErasedError<V>,
    groups: Seq<Group>,
    arm_matches: F,
    o: Outcome,
) -> bool {
    match o {
        Outcome::Arm { group, arm } => {
            &&& is_first_group(err.type_tag(), groups, group as int)
            &&& arm < groups[group as int].arms
            &&& is_first_arm(arm_matches, group, err.payload(), arm)
        },
        Outcome::GroupFallback { group } => {
            &&& is_first_group(err.type_tag(), groups, group as int)
            &&& no_arm(arm_matches, group, err.payload(), groups[group as int].arms)
        },
        Outcome::CatchAll => no_group(err.type_tag(), groups),
    }
}

/// The first group, in declaration order, declared with `tag`.
pub fn select_group(tag: u64, groups: &Vec<Group>) -> (r: Option<usize>)
    ensures
        match r {
            Some(g) => is_first_group(tag, groups@, g as int),
            None => no_group(tag, groups@),
        },
{
    let mut i: usize = 0;
    while i < groups.len()
        invariant
            i <= groups.len(),
            forall|h: int| 0 <= h < i ==> #[trigger] groups@[h].tag != tag,
        decreases groups.len() - i,
    {
        if groups[i].tag == tag {
            return Some(i);
        }
        i = i + 1;
    }
    None
}

/// The first of the `n` arms of group `g`, from the top, that matches `value`.
pub fn select_arm<V, F: Fn(usize, usize, &V) -> bool>(
    arm_matches: &F,
    g: usize,
    n: usize,
    value: &V,
) -> (r: Option<usize>)
    requires
        forall|a: usize| a < n ==> #[trigger] arm_matches.requires((g, a, value)),
    ensures
        match r {
            Some(a) => a < n && is_first_arm(*arm_matches, g, *value, a),
            None => no_arm(*arm_matches, g, *value, n),
        },
{
    let mut a: usize = 0;
    while a < n
        invariant
            a <= n,
            forall|b: usize| b < n ==> #[trigger] arm_matches.requires((g, b, value)),
            no_arm(*arm_matches, g, *value, a),
        decreases n - a,
    {
        if arm_matches(g, a, value) {
            return Some(a);
        }
        a = a + 1;
    }
    None
}

/// Selects the branch that handles `err`: tries the declared groups in order,
/// and in the first one declared with the value's type tries its arms in
/// order. Exactly one branch is selected.
pub fn dispatch<V, F: Fn(usize, usize, &V) -> bool>(
    err: &ErasedError<V>,
    groups: &Vec<Group>,
    arm_matches: &F,
) -> (r: Outcome)
    requires
        forall|g: usize, a: usize|
            g < groups.len() && a < groups@[g as int].arms ==> #[trigger] arm_matches.requires(
                (g, a, &err.payload()),
            ),
    ensures
        selects(*err, groups@, *arm_matches, r),
{
    match select_group(err.tag(), groups) {
        None => Outcome::CatchAll,
        Some(g) => {
            let value = err.downcast(groups[g].tag);
            match value {
                Some(v) => match select_arm(arm_matches, g, groups[g].arms, v) {
                    Some(a) => Outcome::Arm { group: g, arm: a },
                    None => Outcome::GroupFallback { group: g },
                },
                // The group was selected by the value's own tag, so the
                // downcast always succeeds.
                None => Outcome::CatchAll,
            }
        },
    }
}

/// Dispatching a wrapped value recovers that very value: whenever some group
/// is declared with its type, the selected branch belongs to a group of that
/// type, a downcast to that group's tag gives the value back unchanged, and a
/// selected arm is one that matched the value itself.
pub proof fn lemma_dispatch_recovers<V, F: Fn(usize, usize, &V) -> bool>(
    err: ErasedError<V>,
    tag: u64,
    value: V,
    groups: Seq<Group>,
    arm_matches: F,
    o: Outcome,
    g: int,
)
    requires
        err.type_tag() == tag,
        err.payload() == value,
        0 <= g < groups.len(),
        groups[g].tag == tag,
        selects(err, groups, arm_matches, o),
    ensures
        group_of(o) matches Some(h) && 0 <= h <= g && groups[h].tag == tag && err.recovered(
            groups[h].tag,
        ) == Some(value),
        o matches Outcome::Arm { group, arm } ==> arm_matches.ensures((group, arm, &value), true),
{
    if o is CatchAll {
        assert(groups[g].tag != tag);
    }
    if group_of(o) matches Some(h) && h > g {
        assert(groups[g].tag != tag);
    }
}

/// The first declared type wins: when two groups `g1 < g2` are both declared
/// with the value's type, the selected branch never belongs to `g2`, nor to
/// any group after `g1`.
pub proof fn lemma_first_declared_wins<V, F: Fn(usize, usize, &V) -> bool>(
    err: ErasedError<V>,
    groups: Seq<Group>,
    arm_matches: F,
    o: Outcome,
    g1: int,
    g2: int,
)
    requires
        0 <= g1 < g2 < groups.len(),
        groups[g1].tag == err.type_tag(),
        groups[g2].tag == err.type_tag(),
        selects(err, groups, arm_matches, o),
    ensures
        group_of(o) matches Some(h) && h <= g1,
        group_of(o) != Some(g2),
{
    if o is CatchAll {
        assert(groups[g1].tag != err.type_tag());
    }
    if group_of(o) matches Some(h) && h > g1 {
        assert(groups[g1].tag != err.type_tag());
    }
}

} // verus!
