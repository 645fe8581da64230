//! The failures that the library reports to its callers.

use crate::text::push_str;
use vstd::prelude::*;

verus! {

/// A value that was looked for and not found, or a locator of the wrong
/// shape.
#[derive(Debug)]
pub enum LibError {
    /// A field that an answer of a remote service was expected to hold.
    MissingValue { value: String },
    /// A locator that does not name a medium.
    UrlError { description: String },
}

impl LibError {
    /// What is missing, or what is wrong with the locator.
    pub open spec fn detail(self) -> Seq<char> {
        match self {
            LibError::MissingValue { value } => value@,
            LibError::UrlError { description } => description@,
        }
    }

    /// The line that a log shows for this failure.
    pub open spec fn spec_message(self) -> Seq<char> {
        match self {
            LibError::MissingValue { value } => "Missing Value: `"@ + value@ + "`"@,
            LibError::UrlError { description } => "Url Error: `"@ + description@ + "`"@,
        }
    }

    /// A missing value, by its name.
    pub fn missing_value(value: &str) -> (e: LibError)
        ensures
            e is MissingValue,
            e.detail() == value@,
    {
        LibError::MissingValue { value: value.to_owned() }
    }

    /// A locator fault, by its description.
    pub fn url_error(description: &str) -> (e: LibError)
        ensures
            e is UrlError,
            e.detail() == description@,
    {
        LibError::UrlError { description: description.to_owned() }
    }

    /// The name of the missing value, or the description of the locator
    /// fault.
    pub fn description(&self) -> (d: &str)
        ensures
            d@ == self.detail(),
    {
        match self {
            LibError::MissingValue { value } => value.as_str(),
            LibError::UrlError { description } => description.as_str(),
        }
    }

    /// The line that a log shows for this failure.
    pub fn message(&self) -> (m: String)
        ensures
            m@ == self.spec_message(),
    {
        let mut m = String::new();
        match self {
            LibError::MissingValue { value } => {
                push_str(&mut m, "Missing Value: `");
                push_str(&mut m, value.as_str());
            },
            LibError::UrlError { description } => {
                push_str(&mut m, "Url Error: `");
                push_str(&mut m, description.as_str());
            },
        }
        push_str(&mut m, "`");
        m
    }
}

/// A command that came from outside the voice channel of the session.
#[derive(Debug, PartialEq, Eq, Structural, Clone, Copy)]
pub enum VoiceError {
    /// The actor is not in the channel that the session plays in.
    DifferentChannel,
}

impl VoiceError {
    /// The text of this failure.
    pub open spec fn spec_description(self) -> Seq<char> {
        "Different channel"@
    }

    /// The text of this failure.
    pub fn description(&self) -> (d: &'static str)
        ensures
            d@ == self.spec_description(),
    {
        "Different channel"
    }

    /// The line that a log shows for this failure.
    pub fn message(&self) -> (m: String)
        ensures
            m@ == self.spec_description(),
    {
        let mut m = String::new();
        push_str(&mut m, self.description());
        m
    }
}

/// A failure that is described by a text alone.
#[derive(Debug)]
pub struct GeneralError {
    description: String,
}

impl GeneralError {
    /// The text of this failure.
    pub closed spec fn detail(self) -> Seq<char> {
        self.description@
    }

    /// A failure with the given text.
    pub fn new(description: String) -> (e: GeneralError)
        ensures
            e.detail() == description@,
    {
        GeneralError { description }
    }

    /// The text of this failure.
    pub fn description(&self) -> (d: &str)
        ensures
            d@ == self.detail(),
    {
        self.description.as_str()
    }

    /// The line that a log shows for this failure.
    pub fn message(&self) -> (m: String)
        ensures
            m@ == self.detail(),
    {
        let mut m = String::new();
        push_str(&mut m, self.description.as_str());
        m
    }
}

/// Any failure of the library.
#[derive(Debug)]
pub enum Error {
    Lib(LibError),
    Voice(VoiceError),
    General(GeneralError),
}

/// The mathematical value of an [`Error`].
pub enum ErrorView {
    MissingValue(Seq<char>),
    UrlError(Seq<char>),
    DifferentChannel,
    General(Seq<char>),
}

impl View for Error {
    type V = ErrorView;

    open spec fn view(&self) -> ErrorView {
        match self {
            Error::Lib(LibError::MissingValue { value }) => ErrorView::MissingValue(value@),
            Error::Lib(LibError::UrlError { description }) => ErrorView::UrlError(description@),
            Error::Voice(_) => ErrorView::DifferentChannel,
            Error::General(e) => ErrorView::General(e.detail()),
        }
    }
}

impl Error {
    /// A missing value, by its name.
    pub fn missing_value(value: &str) -> (e: Error)
        ensures
            e@ == ErrorView::MissingValue(value@),
    {
        Error::Lib(LibError::missing_value(value))
    }

    /// A failure described by `description` alone.
    pub fn general(description: String) -> (e: Error)
        ensures
            e@ == ErrorView::General(description@),
    {
        Error::General(GeneralError::new(description))
    }

    /// The line that a log shows for this failure.
    pub fn message(&self) -> (m: String)
        ensures
            m@ == match self@ {
                ErrorView::MissingValue(value) => "Missing Value: `"@ + value + "`"@,
                ErrorView::UrlError(description) => "Url Error: `"@ + description + "`"@,
                ErrorView::DifferentChannel => "Different channel"@,
                ErrorView::General(description) => description,
            },
    {
        match self {
            Error::Lib(e) => e.message(),
            Error::Voice(e) => e.message(),
            Error::General(e) => e.message(),
        }
    }
}

} // verus!
