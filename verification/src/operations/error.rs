//! What can go wrong when an operation runs.

use crate::diagnostic::Diagnostic;
use crate::operations::modifiers::error::MaskingError;
use crate::text::texts;
use vstd::prelude::*;

verus! {

/// Why an operation failed.
#[derive(Clone, Debug, PartialEq, Eq)]
pub enum ProcessorError {
    /// The input is not a sprite sheet, and the operation takes nothing else.
    DMINotFound,
    /// The image library refused a step; the text is its message.
    ImageError(String),
    /// The states of the sheet could not be masked.
    MaskingError(MaskingError),
}

impl Diagnostic for ProcessorError {
    open spec fn summary_text(&self) -> Seq<char> {
        match self {
            ProcessorError::DMINotFound => "Input Kind Not Supported"@,
            ProcessorError::ImageError(_) => "Image Processing Failed"@,
            ProcessorError::MaskingError(e) => e.summary_text(),
        }
    }

    open spec fn reason_texts(&self) -> Option<Seq<Seq<char>>> {
        match self {
            ProcessorError::DMINotFound => Some(
                seq!["This operation only accepts a sprite sheet as input"@],
            ),
            ProcessorError::ImageError(message) => Some(seq![message@]),
            ProcessorError::MaskingError(e) => e.reason_texts(),
        }
    }

    open spec fn help_text(&self) -> Option<Seq<char>> {
        match self {
            ProcessorError::DMINotFound => Some(
                "Check that the input of this operation is a DMI file"@,
            ),
            ProcessorError::ImageError(_) => Some(
                "Check that every frame of the sheet fits its canvas"@,
            ),
            ProcessorError::MaskingError(e) => e.help_text(),
        }
    }

    fn summary(&self) -> (s: String) {
        match self {
            ProcessorError::DMINotFound => String::from_str("Input Kind Not Supported"),
            ProcessorError::ImageError(_) => String::from_str("Image Processing Failed"),
            ProcessorError::MaskingError(e) => e.summary(),
        }
    }

    fn reasons(&self) -> (r: Option<Vec<String>>) {
        match self {
            ProcessorError::DMINotFound => {
                let mut list: Vec<String> = Vec::new();
                list.push(String::from_str("This operation only accepts a sprite sheet as input"));
                Some(list)
            },
            ProcessorError::ImageError(message) => {
                let mut list: Vec<String> = Vec::new();
                list.push(message.clone());
                Some(list)
            },
            ProcessorError::MaskingError(e) => e.reasons(),
        }
    }

    fn helptext(&self) -> (h: Option<String>) {
        match self {
            ProcessorError::DMINotFound => Some(
                String::from_str("Check that the input of this operation is a DMI file"),
            ),
            ProcessorError::ImageError(_) => Some(
                String::from_str("Check that every frame of the sheet fits its canvas"),
            ),
            ProcessorError::MaskingError(e) => e.helptext(),
        }
    }
}

/// Why an input could not be decoded. Each variant holds the decoder's
/// message.
#[derive(Clone, Debug, PartialEq, Eq)]
pub enum InputError {
    /// The sprite-sheet decoder refused the input.
    DmiError(String),
    /// The image decoder refused the input.
    DynamicRead(String),
    /// The input is of a file type that has no decoder; the text names it.
    UnsupportedFormat(String),
}

impl InputError {
    /// The text that the error holds.
    pub open spec fn detail(&self) -> Seq<char> {
        match self {
            InputError::DmiError(detail) => detail@,
            InputError::DynamicRead(detail) => detail@,
            InputError::UnsupportedFormat(detail) => detail@,
        }
    }
}

impl Diagnostic for InputError {
    open spec fn summary_text(&self) -> Seq<char> {
        match self {
            InputError::DmiError(_) => "Error reading DMI"@,
            InputError::DynamicRead(_) => "Error reading image"@,
            InputError::UnsupportedFormat(_) => "Unsupported file type"@,
        }
    }

    open spec fn reason_texts(&self) -> Option<Seq<Seq<char>>> {
        Some(seq![self.detail()])
    }

    open spec fn help_text(&self) -> Option<Seq<char>> {
        Some("Make sure the input is a DMI or image file that other tools can open"@)
    }

    fn summary(&self) -> (s: String) {
        match self {
            InputError::DmiError(_) => String::from_str("Error reading DMI"),
            InputError::DynamicRead(_) => String::from_str("Error reading image"),
            InputError::UnsupportedFormat(_) => String::from_str("Unsupported file type"),
        }
    }

    fn reasons(&self) -> (r: Option<Vec<String>>) {
        let mut list: Vec<String> = Vec::new();
        match self {
            InputError::DmiError(detail) => list.push(detail.clone()),
            InputError::DynamicRead(detail) => list.push(detail.clone()),
            InputError::UnsupportedFormat(detail) => list.push(detail.clone()),
        }
        Some(list)
    }

    fn helptext(&self) -> (h: Option<String>) {
        Some(
            String::from_str(
                "Make sure the input is a DMI or image file that other tools can open",
            ),
        )
    }
}

/// Why an output could not be encoded. Each variant holds the encoder's
/// message.
#[derive(Clone, Debug, PartialEq, Eq)]
pub enum OutputError {
    /// The sprite-sheet encoder failed.
    DmiError(String),
    /// The image encoder failed.
    DynamicWrite(String),
}

impl OutputError {
    /// The text that the error holds.
    pub open spec fn detail(&self) -> Seq<char> {
        match self {
            OutputError::DmiError(detail) => detail@,
            OutputError::DynamicWrite(detail) => detail@,
        }
    }
}

impl Diagnostic for OutputError {
    open spec fn summary_text(&self) -> Seq<char> {
        match self {
            OutputError::DmiError(_) => "Error writing DMI"@,
            OutputError::DynamicWrite(_) => "Error writing image"@,
        }
    }

    open spec fn reason_texts(&self) -> Option<Seq<Seq<char>>> {
        Some(seq![self.detail()])
    }

    open spec fn help_text(&self) -> Option<Seq<char>> {
        Some("Make sure the output location exists and can be written to"@)
    }

    fn summary(&self) -> (s: String) {
        match self {
            OutputError::DmiError(_) => String::from_str("Error writing DMI"),
            OutputError::DynamicWrite(_) => String::from_str("Error writing image"),
        }
    }

    fn reasons(&self) -> (r: Option<Vec<String>>) {
        let mut list: Vec<String> = Vec::new();
        match self {
            OutputError::DmiError(detail) => list.push(detail.clone()),
            OutputError::DynamicWrite(detail) => list.push(detail.clone()),
        }
        Some(list)
    }

    fn helptext(&self) -> (h: Option<String>) {
        Some(String::from_str("Make sure the output location exists and can be written to"))
    }
}

} // verus!
