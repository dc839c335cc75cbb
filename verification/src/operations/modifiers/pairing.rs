//! Pairing and validation: looking the base state and the mask state of
//! every target up by name, and checking that the two states of every pair
//! have the same shape.

use crate::operations::modifiers::error::InconsistentDelays;
use crate::operations::modifiers::error::InconsistentDelaysView;
use crate::operations::modifiers::error::InconsistentDirectional;
use crate::operations::modifiers::error::InconsistentDirectionalView;
use crate::operations::modifiers::error::MaskingError;
use crate::operations::modifiers::error::MaskingErrorView;
use crate::sprite::clone_delays;
use crate::sprite::delay_view;
use crate::sprite::states_view;
use crate::sprite::IconState;
use crate::sprite::IconStateView;
use crate::text::join;
use crate::text::joined;
use crate::text::texts;
use vstd::prelude::*;

verus! {

/// The name of the mask state of a target.
pub open spec fn mask_name(target: Seq<char>) -> Seq<char> {
    target + "_mask"@
}

/// Whether `i` is the place of the first state of that name.
pub open spec fn is_position(states: Seq<IconStateView>, name: Seq<char>, i: int) -> bool {
    &&& 0 <= i < states.len()
    &&& states[i].name == name
    &&& forall|j: int| 0 <= j < i ==> (#[trigger] states[j]).name != name
}

/// The place of the first state of that name, if there is one.
pub open spec fn position(states: Seq<IconStateView>, name: Seq<char>) -> Option<int> {
    if exists|i: int| is_position(states, name, i) {
        Some(choose|i: int| is_position(states, name, i))
    } else {
        None
    }
}

/// At most one place is the first of a name.
pub proof fn lemma_position_unique(states: Seq<IconStateView>, name: Seq<char>, i: int)
    requires
        is_position(states, name, i),
    ensures
        position(states, name) == Some(i),
{
    let k = choose|k: int| is_position(states, name, k);
    assert(!(k < i) && !(i < k));
}

/// No state has a name that has no first place.
pub proof fn lemma_position_none(states: Seq<IconStateView>, name: Seq<char>, i: int)
    requires
        position(states, name) is None,
        0 <= i < states.len(),
    ensures
        states[i].name != name,
    decreases i,
{
    if states[i].name == name {
        if forall|j: int| 0 <= j < i ==> (#[trigger] states[j]).name != name {
            assert(is_position(states, name, i));
        } else {
            let j = choose|j: int| 0 <= j < i && (#[trigger] states[j]).name == name;
            lemma_position_none(states, name, j);
        }
    }
}

/// Looks a state up by name: the index of the first state of that name.
pub fn find_state(states: &Vec<IconState>, name: &String) -> (found: Option<usize>)
    ensures
        match found {
            Some(i) => position(states_view(states@), name@) == Some(i as int),
            None => position(states_view(states@), name@) is None,
        },
{
    let mut i: usize = 0;
    while i < states.len()
        invariant
            i <= states.len(),
            forall|j: int| 0 <= j < i ==> (#[trigger] states_view(states@)[j]).name != name@,
        decreases states.len() - i,
    {
        if states[i].name == *name {
            proof {
                lemma_position_unique(states_view(states@), name@, i as int);
            }
            return Some(i);
        }
        i = i + 1;
    }
    proof {
        if position(states_view(states@), name@) is Some {
            let k = position(states_view(states@), name@).unwrap();
            assert(is_position(states_view(states@), name@, k));
        }
    }
    None
}

/// A target whose base state and mask state were both found: their places in
/// the sheet. It lasts for one run only.
#[derive(Clone, Copy, Debug, PartialEq, Eq, Structural)]
pub struct Pairing {
    pub base: usize,
    pub mask: usize,
}

/// What a pairing is to the contracts.
pub struct Pair {
    pub base: int,
    pub mask: int,
}

impl View for Pairing {
    type V = Pair;

    open spec fn view(&self) -> Pair {
        Pair { base: self.base as int, mask: self.mask as int }
    }
}

/// The views of a list of pairings, in order.
pub open spec fn pairs_view(pairs: Seq<Pairing>) -> Seq<Pair> {
    pairs.map_values(|p: Pairing| p@)
}

/// The names that a target lacks: its own if no state has it, then that of
/// its mask if no state has it.
pub open spec fn missing_of(states: Seq<IconStateView>, target: Seq<char>) -> Seq<Seq<char>> {
    (if position(states, target) is None {
        seq![target]
    } else {
        Seq::empty()
    }) + (if position(states, mask_name(target)) is None {
        seq![mask_name(target)]
    } else {
        Seq::empty()
    })
}

/// Every name that the targets lack, target by target in their order.
pub open spec fn missing_names(states: Seq<IconStateView>, targets: Seq<Seq<char>>) -> Seq<
    Seq<char>,
> {
    targets.map_values(|t: Seq<char>| missing_of(states, t)).flatten()
}

/// The pair of a target: the places of its base state and of its mask state.
/// It means something where both were found.
pub open spec fn pair_of(states: Seq<IconStateView>, target: Seq<char>) -> Pair {
    Pair {
        base: position(states, target).unwrap(),
        mask: position(states, mask_name(target)).unwrap(),
    }
}

/// The pairs of the targets, in their order.
pub open spec fn pairs_of(states: Seq<IconStateView>, targets: Seq<Seq<char>>) -> Seq<Pair> {
    targets.map_values(|t: Seq<char>| pair_of(states, t))
}

/// Whether both places of a pair lie in the list.
pub open spec fn pair_in(states: Seq<IconStateView>, pair: Pair) -> bool {
    0 <= pair.base < states.len() && 0 <= pair.mask < states.len()
}

/// Whether all places of all pairs lie in the list.
pub open spec fn pairs_in(states: Seq<IconStateView>, pairs: Seq<Pair>) -> bool {
    forall|k: int| 0 <= k < pairs.len() ==> pair_in(states, #[trigger] pairs[k])
}

/// The last target adds its own missing names behind those of the targets
/// before it, and its own pair behind theirs.
pub proof fn lemma_targets_step(states: Seq<IconStateView>, targets: Seq<Seq<char>>)
    requires
        targets.len() > 0,
    ensures
        missing_names(states, targets) == missing_names(states, targets.drop_last()) + missing_of(
            states,
            targets.last(),
        ),
        pairs_of(states, targets) == pairs_of(states, targets.drop_last()).push(
            pair_of(states, targets.last()),
        ),
        pairs_of(states, targets).drop_last() == pairs_of(states, targets.drop_last()),
        pairs_of(states, targets).last() == pair_of(states, targets.last()),
{
    let lacks = targets.map_values(|t: Seq<char>| missing_of(states, t));
    assert(lacks.drop_last() =~= targets.drop_last().map_values(
        |t: Seq<char>| missing_of(states, t),
    ));
    assert(lacks =~= lacks.drop_last().push(lacks.last()));
    lacks.drop_last().lemma_flatten_push(lacks.last());
}

/// The error names every missing state, and no other. A name is in the list
/// exactly if it is the name of a target that no state has, or the mask name
/// of a target whose mask name no state has.
pub proof fn lemma_missing_names_complete(
    states: Seq<IconStateView>,
    targets: Seq<Seq<char>>,
    name: Seq<char>,
)
    ensures
        missing_names(states, targets).contains(name) <==> exists|k: int|
            0 <= k < targets.len() && missing_of(states, #[trigger] targets[k]).contains(name),
    decreases targets.len(),
{
    if targets.len() == 0 {
        assert(missing_names(states, targets) =~= Seq::empty());
    } else {
        lemma_targets_step(states, targets);
        lemma_missing_names_complete(states, targets.drop_last(), name);
        let before = missing_names(states, targets.drop_last());
        let last = missing_of(states, targets.last());
        if missing_names(states, targets).contains(name) {
            let i = choose|i: int|
                0 <= i < (before + last).len() && (before + last)[i] == name;
            if i < before.len() {
                assert(before[i] == name);
                let k = choose|k: int|
                    0 <= k < targets.drop_last().len() && missing_of(
                        states,
                        #[trigger] targets.drop_last()[k],
                    ).contains(name);
                assert(targets.drop_last()[k] == targets[k]);
            } else {
                assert(last[i - before.len()] == name);
                assert(targets[targets.len() - 1] == targets.last());
            }
        }
        if exists|k: int|
            0 <= k < targets.len() && missing_of(states, #[trigger] targets[k]).contains(name) {
            let k = choose|k: int|
                0 <= k < targets.len() && missing_of(states, #[trigger] targets[k]).contains(name);
            if k < targets.len() - 1 {
                assert(targets.drop_last()[k] == targets[k]);
                let i = choose|i: int| 0 <= i < before.len() && before[i] == name;
                assert((before + last)[i] == name);
            } else {
                let i = choose|i: int| 0 <= i < last.len() && last[i] == name;
                assert((before + last)[before.len() + i] == name);
            }
        }
    }
}

/// Where no name is missing, every pair lies in the list.
pub proof fn lemma_pairs_in(states: Seq<IconStateView>, targets: Seq<Seq<char>>)
    requires
        missing_names(states, targets).len() == 0,
    ensures
        pairs_in(states, pairs_of(states, targets)),
    decreases targets.len(),
{
    if targets.len() > 0 {
        lemma_targets_step(states, targets);
        lemma_pairs_in(states, targets.drop_last());
        assert forall|k: int| 0 <= k < targets.len() implies pair_in(
            states,
            #[trigger] pairs_of(states, targets)[k],
        ) by {
            if k < targets.len() - 1 {
                assert(pairs_of(states, targets)[k] == pairs_of(states, targets.drop_last())[k]);
            }
        }
    }
}

/// Pairs every target with its base state and its mask state. Every target is
/// looked at before anything fails, so that the error names all that is
/// missing.
pub fn pair_states(states: &Vec<IconState>, targets: &Vec<String>) -> (r: Result<
    Vec<Pairing>,
    MaskingError,
>)
    ensures
        match r {
            Ok(pairs) => {
                &&& missing_names(states_view(states@), texts(targets@)).len() == 0
                &&& pairs_view(pairs@) == pairs_of(states_view(states@), texts(targets@))
                &&& pairs_in(states_view(states@), pairs_view(pairs@))
            },
            Err(e) => {
                &&& missing_names(states_view(states@), texts(targets@)).len() > 0
                &&& e@ == MaskingErrorView::NonexistantStates(
                    joined(missing_names(states_view(states@), texts(targets@)), ", "@),
                )
            },
        },
{
    let ghost sv = states_view(states@);
    let ghost tv = texts(targets@);
    let mut missing: Vec<String> = Vec::new();
    let mut pairs: Vec<Pairing> = Vec::new();
    let mut i: usize = 0;
    while i < targets.len()
        invariant
            i <= targets.len(),
            sv == states_view(states@),
            tv == texts(targets@),
            texts(missing@) == missing_names(sv, tv.take(i as int)),
            missing.len() == 0 ==> pairs_view(pairs@) == pairs_of(sv, tv.take(i as int)),
        decreases targets.len() - i,
    {
        let name = targets[i].clone();
        let mut mask = targets[i].clone();
        mask.append("_mask");
        let base_index = find_state(states, &name);
        let mask_index = find_state(states, &mask);
        if base_index.is_none() {
            missing.push(name);
        }
        if mask_index.is_none() {
            missing.push(mask);
        }
        match (base_index, mask_index) {
            (Some(b), Some(m)) => {
                pairs.push(Pairing { base: b, mask: m });
            },
            _ => {},
        }
        proof {
            assert(tv.take(i + 1).drop_last() =~= tv.take(i as int));
            lemma_targets_step(sv, tv.take(i + 1));
        }
        i = i + 1;
    }
    assert(tv.take(targets.len() as int) =~= tv);
    if missing.len() > 0 {
        return Err(MaskingError::NonexistantStates(join(&missing, ", ")));
    }
    proof {
        lemma_pairs_in(sv, tv);
    }
    Ok(pairs)
}

/// The durations that are shown for a state: its own, or none where it has
/// none.
pub open spec fn shown_delays(delay: Option<Seq<u32>>) -> Seq<u32> {
    match delay {
        Some(d) => d,
        None => Seq::empty(),
    }
}

/// The report on a pair whose direction counts differ.
pub open spec fn directional_mismatch(states: Seq<IconStateView>, pair: Pair) -> Option<
    InconsistentDirectionalView,
> {
    if states[pair.base].dirs != states[pair.mask].dirs {
        Some(
            InconsistentDirectionalView {
                target_name: states[pair.base].name,
                mask_name: states[pair.mask].name,
            },
        )
    } else {
        None
    }
}

/// The reports on all pairs whose direction counts differ, in their order.
pub open spec fn directional_mismatches(states: Seq<IconStateView>, pairs: Seq<Pair>) -> Seq<
    InconsistentDirectionalView,
> {
    pairs.filter_map(|p: Pair| directional_mismatch(states, p))
}

/// The report on a pair whose frame durations differ: in number, in any
/// element, or in that only one of the two states has any.
pub open spec fn delay_mismatch(states: Seq<IconStateView>, pair: Pair) -> Option<
    InconsistentDelaysView,
> {
    if states[pair.base].delay != states[pair.mask].delay {
        Some(
            InconsistentDelaysView {
                target_name: states[pair.base].name,
                target_delays: shown_delays(states[pair.base].delay),
                mask_name: states[pair.mask].name,
                mask_delays: shown_delays(states[pair.mask].delay),
            },
        )
    } else {
        None
    }
}

/// The reports on all pairs whose frame durations differ, in their order.
pub open spec fn delay_mismatches(states: Seq<IconStateView>, pairs: Seq<Pair>) -> Seq<
    InconsistentDelaysView,
> {
    pairs.filter_map(|p: Pair| delay_mismatch(states, p))
}

/// What is kept of a list holds a value exactly if some element gives it.
proof fn lemma_filter_map_contains<A, B>(list: Seq<A>, f: spec_fn(A) -> Option<B>, value: B)
    ensures
        list.filter_map(f).contains(value) <==> exists|k: int|
            0 <= k < list.len() && f(#[trigger] list[k]) == Some(value),
    decreases list.len(),
{
    if list.len() > 0 {
        let rest = list.drop_last();
        lemma_filter_map_contains(rest, f, value);
        let kept = rest.filter_map(f);
        if list.filter_map(f).contains(value) {
            let i = choose|i: int|
                0 <= i < list.filter_map(f).len() && list.filter_map(f)[i] == value;
            if i < kept.len() {
                assert(kept[i] == value);
                let k = choose|k: int| 0 <= k < rest.len() && f(#[trigger] rest[k]) == Some(value);
                assert(rest[k] == list[k]);
            } else {
                assert(f(list[list.len() - 1]) == Some(value));
            }
        }
        if exists|k: int| 0 <= k < list.len() && f(#[trigger] list[k]) == Some(value) {
            let k = choose|k: int| 0 <= k < list.len() && f(#[trigger] list[k]) == Some(value);
            if k < list.len() - 1 {
                assert(rest[k] == list[k]);
                let i = choose|i: int| 0 <= i < kept.len() && kept[i] == value;
                assert(list.filter_map(f)[i] == value);
            } else {
                assert(list.last() == list[k]);
                assert(list.filter_map(f)[kept.len() as int] == value);
            }
        }
    }
}

/// Every pair whose direction counts differ is reported, and no other: a
/// report is in the list exactly if it is that on one of the pairs.
pub proof fn lemma_directional_mismatches_complete(
    states: Seq<IconStateView>,
    pairs: Seq<Pair>,
    report: InconsistentDirectionalView,
)
    ensures
        directional_mismatches(states, pairs).contains(report) <==> exists|k: int|
            0 <= k < pairs.len() && directional_mismatch(states, #[trigger] pairs[k]) == Some(
                report,
            ),
{
    lemma_filter_map_contains(pairs, |p: Pair| directional_mismatch(states, p), report);
}

/// Every pair whose frame durations differ is reported, and no other: a
/// report is in the list exactly if it is that on one of the pairs.
pub proof fn lemma_delay_mismatches_complete(
    states: Seq<IconStateView>,
    pairs: Seq<Pair>,
    report: InconsistentDelaysView,
)
    ensures
        delay_mismatches(states, pairs).contains(report) <==> exists|k: int|
            0 <= k < pairs.len() && delay_mismatch(states, #[trigger] pairs[k]) == Some(report),
{
    lemma_filter_map_contains(pairs, |p: Pair| delay_mismatch(states, p), report);
}

/// The views of a list of reports, in order.
pub open spec fn directionals_view(reports: Seq<InconsistentDirectional>) -> Seq<
    InconsistentDirectionalView,
> {
    reports.map_values(|p: InconsistentDirectional| p@)
}

/// The views of a list of reports, in order.
pub open spec fn delays_view(reports: Seq<InconsistentDelays>) -> Seq<InconsistentDelaysView> {
    reports.map_values(|p: InconsistentDelays| p@)
}

/// Whether two states have the same durations: both none, or both the same
/// list.
pub fn same_delays(a: &Option<Vec<u32>>, b: &Option<Vec<u32>>) -> (same: bool)
    ensures
        same == (delay_view(*a) == delay_view(*b)),
{
    match (a, b) {
        (None, None) => true,
        (Some(x), Some(y)) => {
            if x.len() != y.len() {
                return false;
            }
            let mut i: usize = 0;
            while i < x.len()
                invariant
                    i <= x.len(),
                    x.len() == y.len(),
                    delay_view(*a) == Some(x@),
                    delay_view(*b) == Some(y@),
                    forall|k: int| 0 <= k < i ==> x@[k] == y@[k],
                decreases x.len() - i,
            {
                if x[i] != y[i] {
                    return false;
                }
                i = i + 1;
            }
            assert(x@ =~= y@);
            true
        },
        _ => false,
    }
}

/// Copies the durations that are shown for a state.
fn shown_delays_of(delay: &Option<Vec<u32>>) -> (shown: Vec<u32>)
    ensures
        shown@ == shown_delays(delay_view(*delay)),
{
    match delay {
        Some(d) => clone_delays(d),
        None => Vec::new(),
    }
}

/// Checks that the two states of every pair have the same shape. All pairs
/// are looked at before anything fails; differing direction counts are
/// reported before differing durations.
pub fn check_shapes(states: &Vec<IconState>, pairs: &Vec<Pairing>) -> (r: Result<
    (),
    MaskingError,
>)
    requires
        pairs_in(states_view(states@), pairs_view(pairs@)),
    ensures
        match r {
            Ok(()) => {
                &&& directional_mismatches(states_view(states@), pairs_view(pairs@)).len() == 0
                &&& delay_mismatches(states_view(states@), pairs_view(pairs@)).len() == 0
            },
            Err(e) => if directional_mismatches(states_view(states@), pairs_view(pairs@)).len()
                > 0 {
                e@ == MaskingErrorView::MismatchedDirectionals(
                    directional_mismatches(states_view(states@), pairs_view(pairs@)),
                )
            } else {
                &&& delay_mismatches(states_view(states@), pairs_view(pairs@)).len() > 0
                &&& e@ == MaskingErrorView::MismatchedDelays(
                    delay_mismatches(states_view(states@), pairs_view(pairs@)),
                )
            },
        },
{
    let ghost sv = states_view(states@);
    let ghost pv = pairs_view(pairs@);
    let mut mismatched_dirs: Vec<InconsistentDirectional> = Vec::new();
    let mut mismatched_delays: Vec<InconsistentDelays> = Vec::new();
    let mut i: usize = 0;
    while i < pairs.len()
        invariant
            i <= pairs.len(),
            sv == states_view(states@),
            pv == pairs_view(pairs@),
            pairs_in(sv, pv),
            directionals_view(mismatched_dirs@) == directional_mismatches(sv, pv.take(i as int)),
            delays_view(mismatched_delays@) == delay_mismatches(sv, pv.take(i as int)),
        decreases pairs.len() - i,
    {
        let pair = pairs[i];
        assert(pv[i as int] == pair@);
        assert(pv.take(i + 1).drop_last() =~= pv.take(i as int));
        let base = &states[pair.base];
        let mask = &states[pair.mask];
        if base.dirs != mask.dirs {
            mismatched_dirs.push(
                InconsistentDirectional {
                    target_name: base.name.clone(),
                    mask_name: mask.name.clone(),
                },
            );
        }
        if !same_delays(&base.delay, &mask.delay) {
            mismatched_delays.push(
                InconsistentDelays {
                    target_name: base.name.clone(),
                    target_delays: shown_delays_of(&base.delay),
                    mask_name: mask.name.clone(),
                    mask_delays: shown_delays_of(&mask.delay),
                },
            );
        }
        i = i + 1;
    }
    assert(pv.take(pairs.len() as int) =~= pv);
    if mismatched_dirs.len() > 0 {
        return Err(MaskingError::MismatchedDirectionals(mismatched_dirs));
    }
    if mismatched_delays.len() > 0 {
        return Err(MaskingError::MismatchedDelays(mismatched_delays));
    }
    Ok(())
}

} // verus!
