//! Operations on sprite sheets: what every operation offers, what it takes
//! and what it hands back.

pub mod error;
pub mod modifiers;

use crate::config::error::ConfigError;
use crate::operations::error::ProcessorError;
use crate::sprite::Icon;
use crate::sprite::IconView;
use image::DynamicImage;
use vstd::prelude::*;

verus! {

/// What an operation is given: a decoded input of one of the supported kinds.
#[derive(Debug, PartialEq)]
pub enum InputIcon {
    /// A single image.
    DynamicImage(DynamicImage),
    /// A sprite sheet.
    Dmi(Icon),
}

/// How an operation is to run. No operation of this library reads it yet.
#[derive(Clone, Copy, Debug, PartialEq, Eq, Structural)]
pub enum OperationMode {
    Standard,
    Debug,
}

/// An image that an operation produced.
#[derive(Debug, PartialEq)]
pub enum OutputImage {
    /// A single image.
    Png(DynamicImage),
    /// A sprite sheet.
    Dmi(Icon),
}

/// What an operation hands back.
#[derive(Debug, PartialEq)]
pub enum ProcessorPayload {
    /// One image, named by whoever writes it out.
    Single(OutputImage),
}

impl ProcessorPayload {
    /// Wraps a sprite sheet.
    pub fn from_icon(icon: Icon) -> (payload: Self)
        ensures
            payload == ProcessorPayload::Single(OutputImage::Dmi(icon)),
    {
        ProcessorPayload::Single(OutputImage::Dmi(icon))
    }

    /// The sheet that the payload holds, if it holds one.
    pub open spec fn sheet(self) -> Option<IconView> {
        match self {
            ProcessorPayload::Single(OutputImage::Dmi(icon)) => Some(icon@),
            _ => None,
        }
    }
}

impl InputIcon {
    /// Whether the canvas of a sheet can be allocated: four bytes for each of
    /// its pixels fit the largest vector. An input that is no sheet has no
    /// canvas.
    pub open spec fn fits_memory(self) -> bool {
        match self {
            InputIcon::Dmi(icon) => 4 * icon.width * icon.height <= isize::MAX,
            InputIcon::DynamicImage(_) => true,
        }
    }
}

/// What every operation of the pipeline offers.
pub trait IconOperationConfig {
    /// Runs the operation on an input and hands back what it produced. It
    /// reads its input and writes nothing but its result.
    fn perform_operation(&self, input: &InputIcon, mode: OperationMode) -> (r: Result<
        ProcessorPayload,
        ProcessorError,
    >)
        requires
            input.fits_memory(),
    ;

    /// Checks the operation's own configuration, without any input.
    fn verify_config(&self) -> (r: Result<(), ConfigError>)
    ;
}

} // verus!
