//! What a run does to the number of states, and what a second run on the
//! output of a first does.

use crate::operations::modifiers::cutout::derived_name;
use crate::operations::modifiers::cutout::derived_state;
use crate::operations::modifiers::cutout::Variant;
use crate::operations::modifiers::cutout::oversized;
use crate::operations::modifiers::dmi_masking::any_oversized;
use crate::operations::modifiers::dmi_masking::masking_outcome;
use crate::operations::modifiers::dmi_masking::merged_pair;
use crate::operations::modifiers::dmi_masking::merged_states;
use crate::operations::modifiers::dmi_masking::placed;
use crate::operations::modifiers::dmi_masking::DMIMaskingView;
use crate::operations::modifiers::dmi_masking::Outcome;
use crate::operations::modifiers::pairing::delay_mismatch;
use crate::operations::modifiers::pairing::delay_mismatches;
use crate::operations::modifiers::pairing::directional_mismatch;
use crate::operations::modifiers::pairing::directional_mismatches;
use crate::operations::modifiers::pairing::is_position;
use crate::operations::modifiers::pairing::lemma_delay_mismatches_complete;
use crate::operations::modifiers::pairing::lemma_directional_mismatches_complete;
use crate::operations::modifiers::pairing::lemma_missing_names_complete;
use crate::operations::modifiers::pairing::lemma_position_none;
use crate::operations::modifiers::pairing::lemma_position_unique;
use crate::operations::modifiers::pairing::lemma_targets_step;
use crate::operations::modifiers::pairing::mask_name;
use crate::operations::modifiers::pairing::missing_names;
use crate::operations::modifiers::pairing::missing_of;
use crate::operations::modifiers::pairing::pair_of;
use crate::operations::modifiers::pairing::pairs_of;
use crate::operations::modifiers::pairing::position;
use crate::sprite::IconStateView;
use crate::sprite::IconView;
use vstd::prelude::*;

verus! {

/// How many of the two derived names of a target no state has.
pub open spec fn absent_of(
    config: DMIMaskingView,
    states: Seq<IconStateView>,
    target: Seq<char>,
) -> nat {
    let masked: nat = if position(states, derived_name(target, config.mask_suffix)) is None {
        1
    } else {
        0
    };
    let unmasked: nat = if position(states, derived_name(target, config.unmasked_suffix))
        is None {
        1
    } else {
        0
    };
    masked + unmasked
}

/// How many derived names no state has, counted target by target: a target
/// that occurs twice counts twice.
pub open spec fn absent_names(
    config: DMIMaskingView,
    states: Seq<IconStateView>,
    targets: Seq<Seq<char>>,
) -> nat
    decreases targets.len(),
{
    if targets.len() == 0 {
        0
    } else {
        absent_names(config, states, targets.drop_last()) + absent_of(
            config,
            states,
            targets.last(),
        )
    }
}

/// Whether some state has that name.
pub open spec fn has_name(states: Seq<IconStateView>, name: Seq<char>) -> bool {
    exists|i: int| 0 <= i < states.len() && (#[trigger] states[i]).name == name
}

/// Whether some state has each derived name of every target.
pub open spec fn has_derived_names(
    config: DMIMaskingView,
    states: Seq<IconStateView>,
    targets: Seq<Seq<char>>,
) -> bool {
    forall|k: int|
        0 <= k < targets.len() ==> has_name(
            states,
            derived_name(#[trigger] targets[k], config.mask_suffix),
        ) && has_name(states, derived_name(targets[k], config.unmasked_suffix))
}

/// Whether no state has a derived name of any target.
pub open spec fn is_fresh(
    config: DMIMaskingView,
    states: Seq<IconStateView>,
    targets: Seq<Seq<char>>,
) -> bool {
    forall|k: int|
        0 <= k < targets.len() ==> !has_name(
            states,
            derived_name(#[trigger] targets[k], config.mask_suffix),
        ) && !has_name(states, derived_name(targets[k], config.unmasked_suffix))
}

/// A name has a first place exactly if some state has it.
pub proof fn lemma_position_has_name(states: Seq<IconStateView>, name: Seq<char>)
    ensures
        position(states, name) is Some <==> has_name(states, name),
{
    if has_name(states, name) {
        let i = choose|i: int| 0 <= i < states.len() && (#[trigger] states[i]).name == name;
        if position(states, name) is None {
            lemma_position_none(states, name, i);
        }
    }
}

/// Placing a state adds one to the list if the sheet as it was given has no
/// state of that name, and nothing if it has.
proof fn lemma_placed_len(
    snapshot: Seq<IconStateView>,
    current: Seq<IconStateView>,
    after: int,
    derived: IconStateView,
)
    requires
        snapshot.len() <= current.len(),
        0 <= after,
    ensures
        placed(snapshot, current, after, derived).len() == current.len() + (if position(
            snapshot,
            derived.name,
        ) is None {
            1int
        } else {
            0int
        }),
{
}

/// The list after the targets were processed is longer than the sheet's by
/// the number of derived names that the sheet lacks.
proof fn lemma_merged_len(config: DMIMaskingView, sheet: IconView, targets: Seq<Seq<char>>)
    requires
        missing_names(sheet.states, targets).len() == 0,
    ensures
        merged_states(config, sheet, pairs_of(sheet.states, targets)).len() == sheet.states.len()
            + absent_names(config, sheet.states, targets),
    decreases targets.len(),
{
    if targets.len() > 0 {
        lemma_targets_step(sheet.states, targets);
        lemma_merged_len(config, sheet, targets.drop_last());
        let target = targets.last();
        let pair = pair_of(sheet.states, target);
        let before = merged_states(config, sheet, pairs_of(sheet.states, targets.drop_last()));
        assert(is_position(sheet.states, mask_name(target), pair.mask));
        let greater = if pair.base >= pair.mask {
            pair.base
        } else {
            pair.mask
        };
        let masked = derived_state(
            Variant::Masked,
            sheet.states[pair.base],
            sheet.states[pair.mask],
            config.mask_suffix,
            sheet.width,
            sheet.height,
        );
        let unmasked = derived_state(
            Variant::Unmasked,
            sheet.states[pair.base],
            sheet.states[pair.mask],
            config.unmasked_suffix,
            sheet.width,
            sheet.height,
        );
        lemma_placed_len(sheet.states, before, greater + 1, masked);
        lemma_placed_len(
            sheet.states,
            placed(sheet.states, before, greater + 1, masked),
            greater + 2,
            unmasked,
        );
    }
}

/// A run adds one state for each derived name that the sheet given to it
/// lacks, counted target by target, and no other.
pub proof fn lemma_run_adds_absent_names(config: DMIMaskingView, sheet: IconView, out: IconView)
    requires
        masking_outcome(config, sheet) == Outcome::Masked(out),
    ensures
        out.states.len() == sheet.states.len() + absent_names(
            config,
            sheet.states,
            config.target_states,
        ),
{
    lemma_merged_len(config, sheet, config.target_states);
}

/// A second run with the same configuration on the output of a first keeps
/// the number of states exactly if the output of the first has a state of
/// every derived name: then every derived state replaces one in place.
pub proof fn lemma_rerun_keeps_count(
    config: DMIMaskingView,
    sheet: IconView,
    once: IconView,
    twice: IconView,
)
    requires
        masking_outcome(config, sheet) == Outcome::Masked(once),
        masking_outcome(config, once) == Outcome::Masked(twice),
    ensures
        twice.states.len() == once.states.len() <==> has_derived_names(
            config,
            once.states,
            config.target_states,
        ),
{
    lemma_run_adds_absent_names(config, once, twice);
    lemma_none_absent(config, once.states, config.target_states);
}

/// A state placed where the sheet as it was given has none of its name is
/// added to the list, and every name that the list had it still has.
proof fn lemma_placed_fresh(
    snapshot: Seq<IconStateView>,
    current: Seq<IconStateView>,
    after: int,
    derived: IconStateView,
    name: Seq<char>,
)
    requires
        0 <= after,
        !has_name(snapshot, derived.name),
        has_name(current, name) || name == derived.name,
    ensures
        has_name(placed(snapshot, current, after, derived), name),
{
    lemma_position_has_name(snapshot, derived.name);
    let next = placed(snapshot, current, after, derived);
    if name == derived.name {
        if after < current.len() {
            assert(next[after].name == name);
        } else {
            assert(next[current.len() as int].name == name);
        }
    } else {
        let i = choose|i: int| 0 <= i < current.len() && (#[trigger] current[i]).name == name;
        if after < current.len() && after <= i {
            assert(next[i + 1].name == name);
        } else {
            assert(next[i].name == name);
        }
    }
}

/// After a run on a sheet that had no state of a derived name, the list has
/// a state of every derived name.
proof fn lemma_fresh_merged_names(
    config: DMIMaskingView,
    sheet: IconView,
    targets: Seq<Seq<char>>,
    k: int,
)
    requires
        missing_names(sheet.states, targets).len() == 0,
        is_fresh(config, sheet.states, targets),
        0 <= k < targets.len(),
    ensures
        has_name(
            merged_states(config, sheet, pairs_of(sheet.states, targets)),
            derived_name(targets[k], config.mask_suffix),
        ),
        has_name(
            merged_states(config, sheet, pairs_of(sheet.states, targets)),
            derived_name(targets[k], config.unmasked_suffix),
        ),
    decreases targets.len(),
{
    lemma_targets_step(sheet.states, targets);
    let target = targets.last();
    let pair = pair_of(sheet.states, target);
    let before = merged_states(config, sheet, pairs_of(sheet.states, targets.drop_last()));
    let greater = if pair.base >= pair.mask {
        pair.base
    } else {
        pair.mask
    };
    let masked = derived_state(
        Variant::Masked,
        sheet.states[pair.base],
        sheet.states[pair.mask],
        config.mask_suffix,
        sheet.width,
        sheet.height,
    );
    let unmasked = derived_state(
        Variant::Unmasked,
        sheet.states[pair.base],
        sheet.states[pair.mask],
        config.unmasked_suffix,
        sheet.width,
        sheet.height,
    );
    let between = placed(sheet.states, before, greater + 1, masked);
    let wanted_masked = derived_name(targets[k], config.mask_suffix);
    let wanted_unmasked = derived_name(targets[k], config.unmasked_suffix);
    if k < targets.len() - 1 {
        assert(is_fresh(config, sheet.states, targets.drop_last()));
        lemma_fresh_merged_names(config, sheet, targets.drop_last(), k);
    }
    lemma_placed_fresh(sheet.states, before, greater + 1, masked, wanted_masked);
    lemma_placed_fresh(sheet.states, between, greater + 2, unmasked, wanted_masked);
    if k < targets.len() - 1 {
        lemma_placed_fresh(sheet.states, before, greater + 1, masked, wanted_unmasked);
    }
    lemma_placed_fresh(sheet.states, between, greater + 2, unmasked, wanted_unmasked);
}

/// No derived name is absent exactly if some state has each of them.
proof fn lemma_none_absent(
    config: DMIMaskingView,
    states: Seq<IconStateView>,
    targets: Seq<Seq<char>>,
)
    ensures
        absent_names(config, states, targets) == 0 <==> has_derived_names(config, states, targets),
    decreases targets.len(),
{
    if targets.len() > 0 {
        let rest = targets.drop_last();
        lemma_none_absent(config, states, rest);
        lemma_position_has_name(states, derived_name(targets.last(), config.mask_suffix));
        lemma_position_has_name(states, derived_name(targets.last(), config.unmasked_suffix));
        if has_derived_names(config, states, targets) {
            assert forall|k: int| 0 <= k < rest.len() implies has_name(
                states,
                derived_name(#[trigger] rest[k], config.mask_suffix),
            ) && has_name(states, derived_name(rest[k], config.unmasked_suffix)) by {
                assert(rest[k] == targets[k]);
            }
            assert(targets[targets.len() - 1] == targets.last());
        }
        if absent_names(config, states, targets) == 0 {
            assert forall|k: int| 0 <= k < targets.len() implies has_name(
                states,
                derived_name(#[trigger] targets[k], config.mask_suffix),
            ) && has_name(states, derived_name(targets[k], config.unmasked_suffix)) by {
                if k < rest.len() {
                    assert(rest[k] == targets[k]);
                } else {
                    assert(targets[k] == targets.last());
                }
            }
        }
    }
}

/// The first state of a name.
pub open spec fn first_named(states: Seq<IconStateView>, name: Seq<char>) -> IconStateView {
    states[position(states, name).unwrap()]
}

/// A state placed where the sheet as it was given has none of its name
/// leaves the first state of every other name what it was.
proof fn lemma_placed_fresh_first(
    snapshot: Seq<IconStateView>,
    current: Seq<IconStateView>,
    after: int,
    derived: IconStateView,
    name: Seq<char>,
)
    requires
        0 <= after,
        !has_name(snapshot, derived.name),
        has_name(current, name),
        name != derived.name,
    ensures
        has_name(placed(snapshot, current, after, derived), name),
        first_named(placed(snapshot, current, after, derived), name) == first_named(current, name),
{
    lemma_position_has_name(snapshot, derived.name);
    lemma_position_has_name(current, name);
    lemma_placed_fresh(snapshot, current, after, derived, name);
    let next = placed(snapshot, current, after, derived);
    let p = position(current, name).unwrap();
    let q = if after < current.len() && after <= p {
        p + 1
    } else {
        p
    };
    assert forall|j: int| 0 <= j < q implies (#[trigger] next[j]).name != name by {
    }
    lemma_position_unique(next, name, q);
}

/// After a run on a sheet that had no state of a derived name, the first
/// state of every name that the sheet had is what it was.
proof fn lemma_fresh_merged_first(
    config: DMIMaskingView,
    sheet: IconView,
    targets: Seq<Seq<char>>,
    name: Seq<char>,
)
    requires
        missing_names(sheet.states, targets).len() == 0,
        is_fresh(config, sheet.states, targets),
        has_name(sheet.states, name),
    ensures
        has_name(merged_states(config, sheet, pairs_of(sheet.states, targets)), name),
        first_named(merged_states(config, sheet, pairs_of(sheet.states, targets)), name)
            == first_named(sheet.states, name),
    decreases targets.len(),
{
    if targets.len() > 0 {
        lemma_targets_step(sheet.states, targets);
        let target = targets.last();
        let pair = pair_of(sheet.states, target);
        let before = merged_states(config, sheet, pairs_of(sheet.states, targets.drop_last()));
        let greater = if pair.base >= pair.mask {
            pair.base
        } else {
            pair.mask
        };
        let masked = derived_state(
            Variant::Masked,
            sheet.states[pair.base],
            sheet.states[pair.mask],
            config.mask_suffix,
            sheet.width,
            sheet.height,
        );
        let unmasked = derived_state(
            Variant::Unmasked,
            sheet.states[pair.base],
            sheet.states[pair.mask],
            config.unmasked_suffix,
            sheet.width,
            sheet.height,
        );
        let between = placed(sheet.states, before, greater + 1, masked);
        assert(is_fresh(config, sheet.states, targets.drop_last()));
        lemma_fresh_merged_first(config, sheet, targets.drop_last(), name);
        lemma_placed_fresh_first(sheet.states, before, greater + 1, masked, name);
        lemma_placed_fresh_first(sheet.states, between, greater + 2, unmasked, name);
    }
}

/// After a run on a sheet that had no state of a derived name, every target
/// is paired with states that are what its states in the sheet were.
proof fn lemma_fresh_pairs_again(
    config: DMIMaskingView,
    sheet: IconView,
    once: IconView,
    k: int,
)
    requires
        is_fresh(config, sheet.states, config.target_states),
        masking_outcome(config, sheet) == Outcome::Masked(once),
        0 <= k < config.target_states.len(),
    ensures
        missing_of(once.states, config.target_states[k]).len() == 0,
        once.states[pairs_of(once.states, config.target_states)[k].base]
            == sheet.states[pairs_of(sheet.states, config.target_states)[k].base],
        once.states[pairs_of(once.states, config.target_states)[k].mask]
            == sheet.states[pairs_of(sheet.states, config.target_states)[k].mask],
{
    let targets = config.target_states;
    let target = targets[k];
    lemma_missing_names_complete(sheet.states, targets, target);
    lemma_missing_names_complete(sheet.states, targets, mask_name(target));
    if position(sheet.states, target) is None {
        assert(missing_of(sheet.states, target)[0] == target);
    }
    if position(sheet.states, mask_name(target)) is None {
        let lacks = missing_of(sheet.states, target);
        assert(lacks[lacks.len() - 1] == mask_name(target));
    }
    lemma_position_has_name(sheet.states, target);
    lemma_position_has_name(sheet.states, mask_name(target));
    lemma_fresh_merged_first(config, sheet, targets, target);
    lemma_fresh_merged_first(config, sheet, targets, mask_name(target));
    lemma_position_has_name(once.states, target);
    lemma_position_has_name(once.states, mask_name(target));
}

/// Running the operation on its own output replaces and does not duplicate.
/// Take a sheet that has no state of a derived name, and a run on it that
/// succeeds. Then a second run with the same configuration on the output of
/// the first succeeds too, and its output has as many states as the first.
pub proof fn lemma_rerun_of_fresh_sheet(config: DMIMaskingView, sheet: IconView, once: IconView)
    requires
        is_fresh(config, sheet.states, config.target_states),
        masking_outcome(config, sheet) == Outcome::Masked(once),
    ensures
        masking_outcome(config, once) matches Outcome::Masked(twice) && twice.states.len()
            == once.states.len(),
{
    let targets = config.target_states;
    let pairs = pairs_of(sheet.states, targets);
    let again = pairs_of(once.states, targets);
    let missing = missing_names(once.states, targets);
    if missing.len() > 0 {
        lemma_missing_names_complete(once.states, targets, missing[0]);
        let k = choose|k: int|
            0 <= k < targets.len() && missing_of(once.states, #[trigger] targets[k]).contains(
                missing[0],
            );
        lemma_fresh_pairs_again(config, sheet, once, k);
    }
    let directionals = directional_mismatches(once.states, again);
    if directionals.len() > 0 {
        lemma_directional_mismatches_complete(once.states, again, directionals[0]);
        let k = choose|k: int|
            0 <= k < again.len() && directional_mismatch(once.states, #[trigger] again[k]) == Some(
                directionals[0],
            );
        lemma_fresh_pairs_again(config, sheet, once, k);
        lemma_directional_mismatches_complete(sheet.states, pairs, directionals[0]);
    }
    let delays = delay_mismatches(once.states, again);
    if delays.len() > 0 {
        lemma_delay_mismatches_complete(once.states, again, delays[0]);
        let k = choose|k: int|
            0 <= k < again.len() && delay_mismatch(once.states, #[trigger] again[k]) == Some(
                delays[0],
            );
        lemma_fresh_pairs_again(config, sheet, once, k);
        lemma_delay_mismatches_complete(sheet.states, pairs, delays[0]);
    }
    if any_oversized(once, again) {
        let k = choose|k: int|
            0 <= k < again.len() && oversized(
                once.states[(#[trigger] again[k]).base],
                once.states[again[k].mask],
                once.width,
                once.height,
            );
        lemma_fresh_pairs_again(config, sheet, once, k);
    }
    let twice = IconView { states: merged_states(config, once, again), ..once };
    assert forall|k: int| 0 <= k < targets.len() implies has_name(
        once.states,
        derived_name(#[trigger] targets[k], config.mask_suffix),
    ) && has_name(once.states, derived_name(targets[k], config.unmasked_suffix)) by {
        lemma_fresh_merged_names(config, sheet, targets, k);
    }
    lemma_rerun_keeps_count(config, sheet, once, twice);
}

} // verus!
