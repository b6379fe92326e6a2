//! The failures a conversion can end in.

use vstd::prelude::*;

verus! {

/// Why a conversion failed. Every variant carries a human-readable cause.
#[derive(Debug)]
pub enum TablifyError {
    /// The source name ends in no supported extension.
    Format(String),
    /// The bytes could not be handed to the text decoder.
    Decode(String),
    /// The delimited text or the spreadsheet container is malformed.
    Parse(String),
    /// The template does not compile.
    TemplateSyntax(String),
    /// A compiled template failed while rendering a sheet.
    TemplateRuntime(String),
}

impl TablifyError {
    /// The cause carried by the error, whatever its variant.
    pub open spec fn cause(self) -> Seq<char> {
        match self {
            TablifyError::Format(m) => m@,
            TablifyError::Decode(m) => m@,
            TablifyError::Parse(m) => m@,
            TablifyError::TemplateSyntax(m) => m@,
            TablifyError::TemplateRuntime(m) => m@,
        }
    }

    /// A copy of the cause, for callers that print the error.
    pub fn message(&self) -> (text: String)
        ensures
            text@ == self.cause(),
    {
        match self {
            TablifyError::Format(m) => m.clone(),
            TablifyError::Decode(m) => m.clone(),
            TablifyError::Parse(m) => m.clone(),
            TablifyError::TemplateSyntax(m) => m.clone(),
            TablifyError::TemplateRuntime(m) => m.clone(),
        }
    }
}

} // verus!
