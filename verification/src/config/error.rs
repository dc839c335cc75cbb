//! What can be wrong with a configuration.

use crate::diagnostic::Diagnostic;
use crate::text::texts;
use vstd::prelude::*;

verus! {

/// Why a configuration was not accepted. Each variant holds the detail as
/// text.
#[derive(Clone, Debug, PartialEq, Eq)]
pub enum ConfigError {
    /// A template that the configuration names could not be resolved.
    Template(String),
    /// The configuration could not be read as one.
    Syntax(String),
    /// The configuration was read and holds a value that is not valid.
    Config(String),
}

impl ConfigError {
    /// The detail that the error holds.
    pub open spec fn detail(&self) -> Seq<char> {
        match self {
            ConfigError::Template(detail) => detail@,
            ConfigError::Syntax(detail) => detail@,
            ConfigError::Config(detail) => detail@,
        }
    }

    /// The error in one line: its summary, a colon, and its detail.
    pub open spec fn message_text(&self) -> Seq<char> {
        self.summary_text() + ": "@ + self.detail()
    }

    /// Writes the error in one line.
    pub fn message(&self) -> (s: String)
        ensures
            s@ == self.message_text(),
    {
        let mut s = self.summary();
        s.append(": ");
        match self {
            ConfigError::Template(detail) => s.append(detail.as_str()),
            ConfigError::Syntax(detail) => s.append(detail.as_str()),
            ConfigError::Config(detail) => s.append(detail.as_str()),
        }
        s
    }
}

impl Diagnostic for ConfigError {
    open spec fn summary_text(&self) -> Seq<char> {
        match self {
            ConfigError::Template(_) => "Template Error"@,
            ConfigError::Syntax(_) => "Config Syntax Error"@,
            ConfigError::Config(_) => "Config Error"@,
        }
    }

    open spec fn reason_texts(&self) -> Option<Seq<Seq<char>>> {
        Some(seq![self.detail()])
    }

    open spec fn help_text(&self) -> Option<Seq<char>> {
        Some("Make sure the config conforms to the schema, and that all values are valid"@)
    }

    fn summary(&self) -> (s: String) {
        match self {
            ConfigError::Template(_) => String::from_str("Template Error"),
            ConfigError::Syntax(_) => String::from_str("Config Syntax Error"),
            ConfigError::Config(_) => String::from_str("Config Error"),
        }
    }

    fn reasons(&self) -> (r: Option<Vec<String>>) {
        let mut list: Vec<String> = Vec::new();
        match self {
            ConfigError::Template(detail) => list.push(detail.clone()),
            ConfigError::Syntax(detail) => list.push(detail.clone()),
            ConfigError::Config(detail) => list.push(detail.clone()),
        }
        Some(list)
    }

    fn helptext(&self) -> (h: Option<String>) {
        Some(
            String::from_str(
                "Make sure the config conforms to the schema, and that all values are valid",
            ),
        )
    }
}

} // verus!
