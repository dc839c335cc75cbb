//! The diagnostic contract that every error of the pipeline meets: a one-line
//! summary, an ordered list of reasons, and a help text.

use crate::text::texts;
use vstd::prelude::*;

verus! {

/// What a list of reasons is to the contracts.
pub open spec fn reasons_view(reasons: Option<Vec<String>>) -> Option<Seq<Seq<char>>> {
    match reasons {
        Some(list) => Some(texts(list@)),
        None => None,
    }
}

/// What a help text is to the contracts.
pub open spec fn help_view(help: Option<String>) -> Option<Seq<char>> {
    match help {
        Some(text) => Some(text@),
        None => None,
    }
}

/// An error that can be shown to a user. The three texts are functions of the
/// error value alone.
pub trait Diagnostic {
    /// The summary: one line that names the kind of failure.
    spec fn summary_text(&self) -> Seq<char>;

    /// The reasons: one full sentence for each facet or each batched item of
    /// the failure, in order.
    spec fn reason_texts(&self) -> Option<Seq<Seq<char>>>;

    /// The help: what the user can do about the failure.
    spec fn help_text(&self) -> Option<Seq<char>>;

    /// Writes the summary.
    fn summary(&self) -> (s: String)
        ensures
            s@ == self.summary_text(),
    ;

    /// Writes the reasons.
    fn reasons(&self) -> (r: Option<Vec<String>>)
        ensures
            reasons_view(r) == self.reason_texts(),
    ;

    /// Writes the help.
    fn helptext(&self) -> (h: Option<String>)
        ensures
            help_view(h) == self.help_text(),
    ;
}

} // verus!
