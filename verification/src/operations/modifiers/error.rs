//! What can go wrong when states are masked.

use crate::diagnostic::Diagnostic;
use crate::text::delays_text;
use crate::text::text_delays;
use crate::text::texts;
use vstd::prelude::*;

verus! {

/// A base state and its mask state whose direction counts differ.
#[derive(Clone, Debug, PartialEq, Eq)]
pub struct InconsistentDirectional {
    pub target_name: String,
    pub mask_name: String,
}

/// A base state and its mask state whose frame durations differ. A state
/// without durations is listed with none.
#[derive(Clone, Debug, PartialEq, Eq)]
pub struct InconsistentDelays {
    pub target_name: String,
    pub target_delays: Vec<u32>,
    pub mask_name: String,
    pub mask_delays: Vec<u32>,
}

/// Why a sheet could not be masked. Each variant batches every failure of its
/// kind.
#[derive(Clone, Debug, PartialEq, Eq)]
pub enum MaskingError {
    /// States that were looked up by name and not found; the names, joined by
    /// a comma and a space.
    NonexistantStates(String),
    /// The pairs whose direction counts differ.
    MismatchedDirectionals(Vec<InconsistentDirectional>),
    /// The pairs whose frame durations differ.
    MismatchedDelays(Vec<InconsistentDelays>),
}

/// What a report on differing direction counts is to the contracts.
pub struct InconsistentDirectionalView {
    pub target_name: Seq<char>,
    pub mask_name: Seq<char>,
}

/// What a report on differing frame durations is to the contracts.
pub struct InconsistentDelaysView {
    pub target_name: Seq<char>,
    pub target_delays: Seq<u32>,
    pub mask_name: Seq<char>,
    pub mask_delays: Seq<u32>,
}

/// What a masking error is to the contracts.
pub enum MaskingErrorView {
    NonexistantStates(Seq<char>),
    MismatchedDirectionals(Seq<InconsistentDirectionalView>),
    MismatchedDelays(Seq<InconsistentDelaysView>),
}

impl View for InconsistentDirectional {
    type V = InconsistentDirectionalView;

    open spec fn view(&self) -> InconsistentDirectionalView {
        InconsistentDirectionalView { target_name: self.target_name@, mask_name: self.mask_name@ }
    }
}

impl View for InconsistentDelays {
    type V = InconsistentDelaysView;

    open spec fn view(&self) -> InconsistentDelaysView {
        InconsistentDelaysView {
            target_name: self.target_name@,
            target_delays: self.target_delays@,
            mask_name: self.mask_name@,
            mask_delays: self.mask_delays@,
        }
    }
}

impl View for MaskingError {
    type V = MaskingErrorView;

    open spec fn view(&self) -> MaskingErrorView {
        match self {
            MaskingError::NonexistantStates(names) => MaskingErrorView::NonexistantStates(names@),
            MaskingError::MismatchedDirectionals(pairs) => MaskingErrorView::MismatchedDirectionals(
                pairs@.map_values(|p: InconsistentDirectional| p@),
            ),
            MaskingError::MismatchedDelays(pairs) => MaskingErrorView::MismatchedDelays(
                pairs@.map_values(|p: InconsistentDelays| p@),
            ),
        }
    }
}

impl InconsistentDirectionalView {
    /// The sentence that reports the pair.
    pub open spec fn reason(self) -> Seq<char> {
        "Icon state "@ + self.target_name + "'s direction does not match "@ + self.mask_name
    }
}

impl InconsistentDelaysView {
    /// The sentence that reports the pair, with both lists of durations.
    pub open spec fn reason(self) -> Seq<char> {
        "Icon state "@ + self.target_name + "'s delays "@ + delays_text(self.target_delays, "ds"@)
            + " do not match "@ + self.mask_name + "'s "@ + delays_text(self.mask_delays, "ds"@)
    }
}

impl MaskingErrorView {
    /// The name of the kind of failure.
    pub open spec fn summary(self) -> Seq<char> {
        match self {
            MaskingErrorView::NonexistantStates(_) => "Missing Icon States"@,
            MaskingErrorView::MismatchedDirectionals(_) => "Directional Mismatch"@,
            MaskingErrorView::MismatchedDelays(_) => "Delay Mismatch"@,
        }
    }

    /// One sentence for the missing names, or one for each mismatched pair.
    pub open spec fn reasons(self) -> Seq<Seq<char>> {
        match self {
            MaskingErrorView::NonexistantStates(names) => seq![
                "The following icon states were expected but not found: ["@ + names + "]"@,
            ],
            MaskingErrorView::MismatchedDirectionals(pairs) => pairs.map_values(
                |p: InconsistentDirectionalView| p.reason(),
            ),
            MaskingErrorView::MismatchedDelays(pairs) => pairs.map_values(
                |p: InconsistentDelaysView| p.reason(),
            ),
        }
    }

    /// What the user can do about the failure.
    pub open spec fn help(self) -> Seq<char> {
        match self {
            MaskingErrorView::NonexistantStates(_) => "Did you remember to save?"@,
            MaskingErrorView::MismatchedDirectionals(_) =>
                "Check if the two icon states have the same amount of directionals. Failing this, did you save?"@,
            MaskingErrorView::MismatchedDelays(_) =>
                "Make sure all the delays line up correctly, careful this can be a bit annoying"@,
        }
    }
}

impl InconsistentDirectional {
    /// Writes the sentence that reports the pair.
    pub fn reason(&self) -> (s: String)
        ensures
            s@ == self@.reason(),
    {
        let mut s = String::from_str("Icon state ");
        s.append(self.target_name.as_str());
        s.append("'s direction does not match ");
        s.append(self.mask_name.as_str());
        s
    }
}

impl InconsistentDelays {
    /// Writes the sentence that reports the pair.
    pub fn reason(&self) -> (s: String)
        ensures
            s@ == self@.reason(),
    {
        let mut s = String::from_str("Icon state ");
        s.append(self.target_name.as_str());
        s.append("'s delays ");
        s.append(text_delays(&self.target_delays, "ds").as_str());
        s.append(" do not match ");
        s.append(self.mask_name.as_str());
        s.append("'s ");
        s.append(text_delays(&self.mask_delays, "ds").as_str());
        s
    }
}

impl Diagnostic for MaskingError {
    open spec fn summary_text(&self) -> Seq<char> {
        self@.summary()
    }

    open spec fn reason_texts(&self) -> Option<Seq<Seq<char>>> {
        Some(self@.reasons())
    }

    open spec fn help_text(&self) -> Option<Seq<char>> {
        Some(self@.help())
    }

    fn summary(&self) -> (s: String) {
        match self {
            MaskingError::NonexistantStates(_) => String::from_str("Missing Icon States"),
            MaskingError::MismatchedDirectionals(_) => String::from_str("Directional Mismatch"),
            MaskingError::MismatchedDelays(_) => String::from_str("Delay Mismatch"),
        }
    }

    fn reasons(&self) -> (r: Option<Vec<String>>) {
        let mut hand_back: Vec<String> = Vec::new();
        match self {
            MaskingError::NonexistantStates(names) => {
                let mut s = String::from_str(
                    "The following icon states were expected but not found: [",
                );
                s.append(names.as_str());
                s.append("]");
                hand_back.push(s);
            },
            MaskingError::MismatchedDirectionals(pairs) => {
                let mut i: usize = 0;
                while i < pairs.len()
                    invariant
                        i <= pairs.len(),
                        hand_back.len() == i,
                        forall|k: int|
                            0 <= k < i ==> (#[trigger] hand_back@[k])@ == pairs@[k]@.reason(),
                    decreases pairs.len() - i,
                {
                    hand_back.push(pairs[i].reason());
                    i = i + 1;
                }
            },
            MaskingError::MismatchedDelays(pairs) => {
                let mut i: usize = 0;
                while i < pairs.len()
                    invariant
                        i <= pairs.len(),
                        hand_back.len() == i,
                        forall|k: int|
                            0 <= k < i ==> (#[trigger] hand_back@[k])@ == pairs@[k]@.reason(),
                    decreases pairs.len() - i,
                {
                    hand_back.push(pairs[i].reason());
                    i = i + 1;
                }
            },
        }
        Some(hand_back)
    }

    fn helptext(&self) -> (h: Option<String>) {
        match self {
            MaskingError::NonexistantStates(_) => Some(
                String::from_str("Did you remember to save?"),
            ),
            MaskingError::MismatchedDirectionals(_) => Some(
                String::from_str(
                    "Check if the two icon states have the same amount of directionals. Failing this, did you save?",
                ),
            ),
            MaskingError::MismatchedDelays(_) => Some(
                String::from_str(
                    "Make sure all the delays line up correctly, careful this can be a bit annoying",
                ),
            ),
        }
    }
}

} // verus!
