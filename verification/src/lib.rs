//! Sprite-sheet state masking: pairs each target state with its mask state,
//! splits the base artwork by the mask's alpha channel into two complementary
//! states, and merges them back into the sheet. Every failure is reported as
//! a summary, a list of reasons and a help text.

pub mod config;
pub mod diagnostic;
pub mod error;
pub mod frame;
pub mod operations;
pub mod sprite;
pub mod text;
