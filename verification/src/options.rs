//! What a caller may choose: the name of the source and the style of the
//! error report.

use vstd::prelude::*;

verus! {

/// The style in which a failure is rendered.
#[derive(Clone, Copy, Debug, PartialEq, Eq, Structural)]
pub enum ErrorFormat {
    /// Readable text, with the source lines that the failure points at.
    Normal,
    /// One line of JSON with the message and what caused it.
    Json,
}

/// Under which name a source text is registered.
#[derive(Clone, Debug, PartialEq, Eq)]
pub enum FileIdentity {
    /// No name was given.
    Anonymous,
    /// The name of a file, as the caller wrote it.
    Real(String),
}

/// The options of one transform. Both may be left out.
#[derive(Clone, Debug)]
pub struct Options {
    /// The name of the source; empty for an anonymous source.
    pub filename: String,
    /// The style of the error report; `None` for the default.
    pub error_format: Option<ErrorFormat>,
}

impl Options {
    /// The identity that `filename` stands for: anonymous where it is empty,
    /// else that name.
    pub open spec fn spec_identity(self) -> FileIdentity {
        if self.filename@.len() == 0 {
            FileIdentity::Anonymous
        } else {
            FileIdentity::Real(self.filename)
        }
    }

    /// The style in effect: the one chosen, else `Normal`.
    pub open spec fn spec_error_format(self) -> ErrorFormat {
        match self.error_format {
            Some(format) => format,
            None => ErrorFormat::Normal,
        }
    }

    /// The identity under which the source is registered.
    pub fn identity(&self) -> (identity: FileIdentity)
        ensures
            identity == self.spec_identity(),
    {
        if self.filename.as_str().is_empty() {
            FileIdentity::Anonymous
        } else {
            FileIdentity::Real(self.filename.clone())
        }
    }

    /// The style in which failures are reported.
    pub fn error_format(&self) -> (format: ErrorFormat)
        ensures
            format == self.spec_error_format(),
    {
        match self.error_format {
            Some(format) => format,
            None => ErrorFormat::Normal,
        }
    }
}

impl Default for Options {
    /// An anonymous source and the default error style.
    fn default() -> (options: Options)
        ensures
            options.filename@.len() == 0,
            options.error_format is None,
    {
        Options { filename: String::new(), error_format: None }
    }
}

} // verus!
