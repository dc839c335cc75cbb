//! The errors of a whole run: what the command-line front end reports.

use crate::config::error::ConfigError;
use crate::diagnostic::Diagnostic;
use crate::operations::error::InputError;
use crate::operations::error::OutputError;
use crate::operations::error::ProcessorError;
use crate::text::texts;
use vstd::prelude::*;

verus! {

/// Why a run failed. Paths are held as the text that is shown for them.
#[derive(Clone, Debug, PartialEq, Eq)]
pub enum Error {
    /// The input that a configuration asks for does not exist.
    InputNotFound { source_config: String, expected: String, search_dir: String },
    /// A configuration was not accepted.
    InvalidConfig { source_config: String, config_error: ConfigError },
    /// The template that a configuration names does not exist.
    TemplateNotFound { source_config: String, template_string: String, expected_path: String },
    /// The input could not be decoded.
    InputParsingFailed(InputError),
    /// An operation failed.
    ProcessorFailed(ProcessorError),
    /// The output could not be written.
    OutputWriteFailed(OutputError),
    /// The folder of templates does not exist; the text is its path.
    NoTemplateFolder(String),
    /// Reading or writing failed; the text is the kind of failure.
    IO(String),
}

impl Diagnostic for Error {
    open spec fn summary_text(&self) -> Seq<char> {
        match self {
            Error::InputNotFound { .. } => "Input not found"@,
            Error::InvalidConfig { .. } => "Invalid Config File"@,
            Error::TemplateNotFound { .. } => "Template Not Found"@,
            Error::InputParsingFailed(_) => "Image Parsing Failed"@,
            Error::ProcessorFailed(_) => "Processing Failed"@,
            Error::OutputWriteFailed(_) => "Output Failed"@,
            Error::NoTemplateFolder(_) => "No template folder"@,
            Error::IO(_) => "Generic IO Error"@,
        }
    }

    /// The front end's own sentences, or the reasons of the error that it
    /// wraps.
    open spec fn reason_texts(&self) -> Option<Seq<Seq<char>>> {
        match self {
            Error::InputNotFound { source_config, expected, search_dir } => Some(
                seq![
                    "Failed to find the input for a config ("@ + source_config@ + ")"@,
                    "Searched in `"@ + search_dir@ + "`"@,
                    "Expected to find an input file named \""@ + expected@ + "\""@,
                ],
            ),
            Error::InvalidConfig { source_config, config_error } => Some(
                seq![
                    "Error within config \""@ + source_config@ + "\""@,
                    config_error.message_text(),
                ],
            ),
            Error::TemplateNotFound { source_config, template_string, expected_path } => Some(
                seq![
                    "Failed to find the template referenced in a config ("@ + source_config@
                        + ")"@,
                    "Config string was \""@ + template_string@ + "\""@,
                    "Expected to find a config at "@ + expected_path@,
                ],
            ),
            Error::NoTemplateFolder(folder) => Some(
                seq![
                    "Failed to find template folder"@,
                    "Expected template folder at "@ + folder@,
                ],
            ),
            Error::InputParsingFailed(e) => e.reason_texts(),
            Error::ProcessorFailed(e) => e.reason_texts(),
            Error::OutputWriteFailed(e) => e.reason_texts(),
            Error::IO(kind) => Some(seq!["Operation failed for reason of \""@ + kind@ + "\""@]),
        }
    }

    /// The front end's own advice, or the help of the error that it wraps.
    open spec fn help_text(&self) -> Option<Seq<char>> {
        match self {
            Error::InputNotFound { expected, .. } => Some(
                "Double check that the file \""@ + expected@
                    + "\" exists, and if it does, that it's named correctly"@,
            ),
            Error::InvalidConfig { .. } => Some(
                "Make sure the config conforms to the schema, and that all values are valid"@,
            ),
            Error::TemplateNotFound { .. } => Some(
                "Make sure you have spelled the template correctly, and that it exists"@,
            ),
            Error::NoTemplateFolder(_) => Some(
                "Check that you have spelled your template dir correctly, and make sure it exists"@,
            ),
            Error::InputParsingFailed(e) => e.help_text(),
            Error::ProcessorFailed(e) => e.help_text(),
            Error::OutputWriteFailed(e) => e.help_text(),
            Error::IO(_) => Some(
                "Make sure the directories or files aren't in use, and you have permission to access them"@,
            ),
        }
    }

    fn summary(&self) -> (s: String) {
        match self {
            Error::InputNotFound { .. } => String::from_str("Input not found"),
            Error::InvalidConfig { .. } => String::from_str("Invalid Config File"),
            Error::TemplateNotFound { .. } => String::from_str("Template Not Found"),
            Error::InputParsingFailed(_) => String::from_str("Image Parsing Failed"),
            Error::ProcessorFailed(_) => String::from_str("Processing Failed"),
            Error::OutputWriteFailed(_) => String::from_str("Output Failed"),
            Error::NoTemplateFolder(_) => String::from_str("No template folder"),
            Error::IO(_) => String::from_str("Generic IO Error"),
        }
    }

    fn reasons(&self) -> (r: Option<Vec<String>>) {
        match self {
            Error::InputNotFound { source_config, expected, search_dir } => {
                let mut first = String::from_str("Failed to find the input for a config (");
                first.append(source_config.as_str());
                first.append(")");
                let mut second = String::from_str("Searched in `");
                second.append(search_dir.as_str());
                second.append("`");
                let mut third = String::from_str("Expected to find an input file named \"");
                third.append(expected.as_str());
                third.append("\"");
                let mut list: Vec<String> = Vec::new();
                list.push(first);
                list.push(second);
                list.push(third);
                Some(list)
            },
            Error::InvalidConfig { source_config, config_error } => {
                let mut first = String::from_str("Error within config \"");
                first.append(source_config.as_str());
                first.append("\"");
                let mut list: Vec<String> = Vec::new();
                list.push(first);
                list.push(config_error.message());
                Some(list)
            },
            Error::TemplateNotFound { source_config, template_string, expected_path } => {
                let mut first = String::from_str(
                    "Failed to find the template referenced in a config (",
                );
                first.append(source_config.as_str());
                first.append(")");
                let mut second = String::from_str("Config string was \"");
                second.append(template_string.as_str());
                second.append("\"");
                let mut third = String::from_str("Expected to find a config at ");
                third.append(expected_path.as_str());
                let mut list: Vec<String> = Vec::new();
                list.push(first);
                list.push(second);
                list.push(third);
                Some(list)
            },
            Error::NoTemplateFolder(folder) => {
                let mut second = String::from_str("Expected template folder at ");
                second.append(folder.as_str());
                let mut list: Vec<String> = Vec::new();
                list.push(String::from_str("Failed to find template folder"));
                list.push(second);
                Some(list)
            },
            Error::InputParsingFailed(e) => e.reasons(),
            Error::ProcessorFailed(e) => e.reasons(),
            Error::OutputWriteFailed(e) => e.reasons(),
            Error::IO(kind) => {
                let mut first = String::from_str("Operation failed for reason of \"");
                first.append(kind.as_str());
                first.append("\"");
                let mut list: Vec<String> = Vec::new();
                list.push(first);
                Some(list)
            },
        }
    }

    fn helptext(&self) -> (h: Option<String>) {
        match self {
            Error::InputNotFound { expected, .. } => {
                let mut help = String::from_str("Double check that the file \"");
                help.append(expected.as_str());
                help.append("\" exists, and if it does, that it's named correctly");
                Some(help)
            },
            Error::InvalidConfig { .. } => Some(
                String::from_str(
                    "Make sure the config conforms to the schema, and that all values are valid",
                ),
            ),
            Error::TemplateNotFound { .. } => Some(
                String::from_str(
                    "Make sure you have spelled the template correctly, and that it exists",
                ),
            ),
            Error::NoTemplateFolder(_) => Some(
                String::from_str(
                    "Check that you have spelled your template dir correctly, and make sure it exists",
                ),
            ),
            Error::InputParsingFailed(e) => e.helptext(),
            Error::ProcessorFailed(e) => e.helptext(),
            Error::OutputWriteFailed(e) => e.helptext(),
            Error::IO(_) => Some(
                String::from_str(
                    "Make sure the directories or files aren't in use, and you have permission to access them",
                ),
            ),
        }
    }
}

} // verus!
