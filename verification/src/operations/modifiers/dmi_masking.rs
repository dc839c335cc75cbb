//! Masking: splitting each target state of a sheet in two by the alpha
//! channel of its mask state, and merging the derived states back into the
//! sheet.

use crate::config::error::ConfigError;
use crate::frame::image_error_text;
use crate::operations::error::ProcessorError;
use crate::operations::modifiers::cutout::canvas_fits_memory;
use crate::operations::modifiers::cutout::derive_state;
use crate::operations::modifiers::cutout::derived_state;
use crate::operations::modifiers::cutout::oversized;
use crate::operations::modifiers::cutout::Variant;
use crate::operations::modifiers::error::MaskingErrorView;
use crate::operations::modifiers::pairing::check_shapes;
use crate::operations::modifiers::pairing::delay_mismatches;
use crate::operations::modifiers::pairing::directional_mismatches;
use crate::operations::modifiers::pairing::find_state;
use crate::operations::modifiers::pairing::is_position;
use crate::operations::modifiers::pairing::missing_names;
use crate::operations::modifiers::pairing::pair_in;
use crate::operations::modifiers::pairing::pair_states;
use crate::operations::modifiers::pairing::pairs_in;
use crate::operations::modifiers::pairing::pairs_of;
use crate::operations::modifiers::pairing::pairs_view;
use crate::operations::modifiers::pairing::position;
use crate::operations::modifiers::pairing::Pair;
use crate::operations::modifiers::pairing::Pairing;
use crate::operations::IconOperationConfig;
use crate::operations::InputIcon;
use crate::operations::OperationMode;
use crate::operations::ProcessorPayload;
use crate::sprite::clone_states;
use crate::sprite::states_view;
use crate::sprite::Icon;
use crate::sprite::IconState;
use crate::sprite::IconStateView;
use crate::sprite::IconView;
use crate::text::joined;
use crate::text::texts;
use image::ImageError;
use vstd::prelude::*;

verus! {

/// The configuration of a masking run.
#[derive(Clone, Debug, PartialEq, Eq)]
pub struct DMIMasking {
    /// The names of the base states to mask, in the order in which they are
    /// processed. A name that occurs twice is processed twice.
    pub target_states: Vec<String>,
    /// What follows the base name and an underscore in the name of a masked
    /// state.
    pub mask_suffix: String,
    /// What follows the base name and an underscore in the name of an
    /// unmasked state.
    pub unmasked_suffix: String,
}

/// What a configuration is to the contracts.
pub struct DMIMaskingView {
    pub target_states: Seq<Seq<char>>,
    pub mask_suffix: Seq<char>,
    pub unmasked_suffix: Seq<char>,
}

impl View for DMIMasking {
    type V = DMIMaskingView;

    open spec fn view(&self) -> DMIMaskingView {
        DMIMaskingView {
            target_states: texts(self.target_states@),
            mask_suffix: self.mask_suffix@,
            unmasked_suffix: self.unmasked_suffix@,
        }
    }
}

impl Default for DMIMasking {
    fn default() -> (config: Self)
        ensures
            config@.target_states.len() == 0,
            config@.mask_suffix.len() == 0,
            config@.unmasked_suffix.len() == 0,
    {
        DMIMasking {
            target_states: Vec::new(),
            mask_suffix: String::new(),
            unmasked_suffix: String::new(),
        }
    }
}

/// Where a derived state goes. If the sheet as it was given has a state of
/// that name, the derived state takes the place of whatever now stands at
/// that state's index. Otherwise it is inserted at `after`, or appended
/// where the list is not longer than that.
pub open spec fn placed(
    snapshot: Seq<IconStateView>,
    current: Seq<IconStateView>,
    after: int,
    derived: IconStateView,
) -> Seq<IconStateView> {
    match position(snapshot, derived.name) {
        Some(i) => current.update(i, derived),
        None => if after < current.len() {
            current.insert(after, derived)
        } else {
            current.push(derived)
        },
    }
}

/// Puts a derived state into the list: over the state at `existing` if there
/// is one, else at `greater + offset`, or at the end where the list is not
/// longer than that.
fn place_state(
    states: &mut Vec<IconState>,
    existing: Option<usize>,
    greater: usize,
    offset: usize,
    derived: IconState,
)
    requires
        greater < old(states).len(),
        existing matches Some(i) ==> i < old(states).len(),
    ensures
        final(states).len() >= old(states).len(),
        states_view(final(states)@) == match existing {
            Some(i) => states_view(old(states)@).update(i as int, derived@),
            None => if greater + offset < old(states).len() {
                states_view(old(states)@).insert(greater + offset, derived@)
            } else {
                states_view(old(states)@).push(derived@)
            },
        },
{
    match existing {
        Some(i) => {
            states.set(i, derived);
        },
        None => {
            if states.len() - greater > offset {
                states.insert(greater + offset, derived);
            } else {
                states.push(derived);
            }
        },
    }
}

/// The list after one pair was processed: its masked state placed behind the
/// later of its two states, then its unmasked state placed one further.
pub open spec fn merged_pair(
    config: DMIMaskingView,
    sheet: IconView,
    current: Seq<IconStateView>,
    pair: Pair,
) -> Seq<IconStateView> {
    let base = sheet.states[pair.base];
    let mask = sheet.states[pair.mask];
    let greater = if pair.base >= pair.mask {
        pair.base
    } else {
        pair.mask
    };
    let masked = derived_state(
        Variant::Masked,
        base,
        mask,
        config.mask_suffix,
        sheet.width,
        sheet.height,
    );
    let unmasked = derived_state(
        Variant::Unmasked,
        base,
        mask,
        config.unmasked_suffix,
        sheet.width,
        sheet.height,
    );
    placed(sheet.states, placed(sheet.states, current, greater + 1, masked), greater + 2, unmasked)
}

/// The list after all pairs were processed in their order, each on the list
/// that the pairs before it left. Names are looked up, and places are
/// counted, in the sheet as it was given.
pub open spec fn merged_states(config: DMIMaskingView, sheet: IconView, pairs: Seq<Pair>) -> Seq<
    IconStateView,
> {
    pairs.fold_left(
        sheet.states,
        |current: Seq<IconStateView>, pair: Pair| merged_pair(config, sheet, current, pair),
    )
}

/// Whether some pair has a base frame that does not fit the canvas.
pub open spec fn any_oversized(sheet: IconView, pairs: Seq<Pair>) -> bool {
    exists|k: int|
        0 <= k < pairs.len() && oversized(
            sheet.states[(#[trigger] pairs[k]).base],
            sheet.states[pairs[k].mask],
            sheet.width,
            sheet.height,
        )
}

/// How a masking run on a sheet ends.
pub enum Outcome {
    /// Validation failed.
    Rejected(MaskingErrorView),
    /// A base frame does not fit the canvas.
    Oversized,
    /// The sheet with its derived states.
    Masked(IconView),
}

/// How a masking run on a sheet ends. Missing names are reported before
/// differing direction counts, those before differing durations, and those
/// before a frame that does not fit.
pub open spec fn masking_outcome(config: DMIMaskingView, sheet: IconView) -> Outcome {
    let missing = missing_names(sheet.states, config.target_states);
    let pairs = pairs_of(sheet.states, config.target_states);
    let directionals = directional_mismatches(sheet.states, pairs);
    let delays = delay_mismatches(sheet.states, pairs);
    if missing.len() > 0 {
        Outcome::Rejected(MaskingErrorView::NonexistantStates(joined(missing, ", "@)))
    } else if directionals.len() > 0 {
        Outcome::Rejected(MaskingErrorView::MismatchedDirectionals(directionals))
    } else if delays.len() > 0 {
        Outcome::Rejected(MaskingErrorView::MismatchedDelays(delays))
    } else if any_oversized(sheet, pairs) {
        Outcome::Oversized
    } else {
        Outcome::Masked(IconView { states: merged_states(config, sheet, pairs), ..sheet })
    }
}

/// Whether a result is the given outcome.
pub open spec fn is_outcome(r: Result<ProcessorPayload, ProcessorError>, outcome: Outcome) -> bool {
    match outcome {
        Outcome::Rejected(error) => r matches Err(ProcessorError::MaskingError(e)) && e@ == error,
        Outcome::Oversized => r matches Err(ProcessorError::ImageError(_)),
        Outcome::Masked(sheet) => r matches Ok(payload) && payload.sheet() == Some(sheet),
    }
}

impl DMIMasking {
    /// Places the derived states of all pairs into a copy of the sheet's
    /// states.
    fn merge(&self, icon: &Icon, pairs: &Vec<Pairing>) -> (r: Result<Vec<IconState>, ImageError>)
        requires
            canvas_fits_memory(icon.width, icon.height),
            pairs_in(icon@.states, pairs_view(pairs@)),
        ensures
            r is Ok <==> !any_oversized(icon@, pairs_view(pairs@)),
            r matches Ok(states) ==> states_view(states@) == merged_states(
                self@,
                icon@,
                pairs_view(pairs@),
            ),
    {
        let ghost pv = pairs_view(pairs@);
        let mut final_states = clone_states(&icon.states);
        assert(states_view(icon.states@).len() == icon.states.len());
        let mut i: usize = 0;
        while i < pairs.len()
            invariant
                i <= pairs.len(),
                pv == pairs_view(pairs@),
                pairs_in(icon@.states, pv),
                canvas_fits_memory(icon.width, icon.height),
                final_states.len() >= icon.states.len(),
                states_view(final_states@) == merged_states(self@, icon@, pv.take(i as int)),
                forall|k: int|
                    0 <= k < i ==> !oversized(
                        icon@.states[(#[trigger] pv[k]).base],
                        icon@.states[pv[k].mask],
                        icon.width,
                        icon.height,
                    ),
            decreases pairs.len() - i,
        {
            let pair = pairs[i];
            assert(pv[i as int] == pair@);
            let base = &icon.states[pair.base];
            let mask = &icon.states[pair.mask];
            let greater = if pair.base >= pair.mask {
                pair.base
            } else {
                pair.mask
            };
            let masked = match derive_state(
                Variant::Masked,
                base,
                mask,
                &self.mask_suffix,
                icon.width,
                icon.height,
            ) {
                Ok(state) => state,
                Err(e) => {
                    return Err(e);
                },
            };
            let unmasked = match derive_state(
                Variant::Unmasked,
                base,
                mask,
                &self.unmasked_suffix,
                icon.width,
                icon.height,
            ) {
                Ok(state) => state,
                Err(e) => {
                    return Err(e);
                },
            };
            let possible_mask = find_state(&icon.states, &masked.name);
            place_state(&mut final_states, possible_mask, greater, 1, masked);
            let possible_unmasked = find_state(&icon.states, &unmasked.name);
            place_state(&mut final_states, possible_unmasked, greater, 2, unmasked);
            assert(pv.take(i + 1).drop_last() =~= pv.take(i as int));
            i = i + 1;
        }
        assert(pv.take(pairs.len() as int) =~= pv);
        Ok(final_states)
    }

    /// Masks a sheet: pairs the targets, checks the pairs, and places the
    /// derived states in a copy of the sheet.
    pub fn mask_icon(&self, icon: &Icon) -> (r: Result<ProcessorPayload, ProcessorError>)
        requires
            canvas_fits_memory(icon.width, icon.height),
        ensures
            is_outcome(r, masking_outcome(self@, icon@)),
    {
        let pairs = match pair_states(&icon.states, &self.target_states) {
            Ok(pairs) => pairs,
            Err(e) => {
                return Err(ProcessorError::MaskingError(e));
            },
        };
        match check_shapes(&icon.states, &pairs) {
            Ok(()) => {},
            Err(e) => {
                return Err(ProcessorError::MaskingError(e));
            },
        }
        match self.merge(icon, &pairs) {
            Ok(states) => {
                let sheet = Icon {
                    width: icon.width,
                    height: icon.height,
                    states,
                };
                Ok(ProcessorPayload::from_icon(sheet))
            },
            Err(e) => Err(ProcessorError::ImageError(image_error_text(&e))),
        }
    }
}

impl IconOperationConfig for DMIMasking {
    /// Masks a sprite sheet. Any other input is refused.
    fn perform_operation(&self, input: &InputIcon, _mode: OperationMode) -> (r: Result<
        ProcessorPayload,
        ProcessorError,
    >)
        ensures
            match input {
                InputIcon::Dmi(icon) => is_outcome(r, masking_outcome(self@, icon@)),
                InputIcon::DynamicImage(_) => r == Err::<ProcessorPayload, ProcessorError>(
                    ProcessorError::DMINotFound,
                ),
            },
    {
        match input {
            InputIcon::Dmi(icon) => self.mask_icon(icon),
            InputIcon::DynamicImage(_) => Err(ProcessorError::DMINotFound),
        }
    }

    /// Accepts every configuration: nothing is checked yet.
    fn verify_config(&self) -> (r: Result<(), ConfigError>)
        ensures
            r is Ok,
    {
        Ok(())
    }
}

} // verus!
