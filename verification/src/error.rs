//! A general error of an extraction, with a message and the error that caused it.

use vstd::prelude::*;
use vstd::string::StringExecFns;

verus! {

/// An extraction failed.
#[derive(Debug)]
pub struct ExtractionError {
    msg: String,
    source: Option<String>,
}

/// The message of an error for which neither a message nor a cause was given.
pub open spec fn no_information() -> Seq<char> {
    "No further information available."@
}

/// The message of an error: the message that was given; without one, the cause behind
/// the words `Raised by `; without either, that nothing more is known.
pub open spec fn message_of(msg: Option<Seq<char>>, source: Option<Seq<char>>) -> Seq<char> {
    match msg {
        Some(text) => text,
        None => match source {
            Some(cause) => "Raised by "@ + cause,
            None => no_information(),
        },
    }
}

/// An error as text: its message and, where there is one, its cause.
pub open spec fn text_of(msg: Seq<char>, source: Option<Seq<char>>) -> Seq<char> {
    match source {
        Some(cause) => "ExtractionError: "@ + msg + "; Source: "@ + cause,
        None => "ExtractionError: "@ + msg,
    }
}

impl ExtractionError {
    /// The error's message.
    pub closed spec fn message(&self) -> Seq<char> {
        self.msg@
    }

    /// The text of the error that caused this one, if one was given.
    pub closed spec fn cause(&self) -> Option<Seq<char>> {
        self.source.deep_view()
    }

    /// Makes an error of a message and of the text of the error that caused it; both
    /// may be left out.
    pub fn new(msg: Option<&str>, source: Option<String>) -> (error: ExtractionError)
        ensures
            error.message() == message_of(
                match msg {
                    Some(text) => Some(text@),
                    None => None,
                },
                source.deep_view(),
            ),
            error.cause() == source.deep_view(),
    {
        let message: String = match msg {
            Some(text) => text.to_owned(),
            None => match &source {
                Some(cause) => String::from_str("Raised by ").concat(cause.as_str()),
                None => String::from_str("No further information available."),
            },
        };
        ExtractionError { msg: message, source }
    }

    /// The error as text.
    pub fn to_string(&self) -> (text: String)
        ensures
            text@ == text_of(self.message(), self.cause()),
    {
        let head = String::from_str("ExtractionError: ").concat(self.msg.as_str());
        match &self.source {
            Some(cause) => head.concat("; Source: ").concat(cause.as_str()),
            None => head,
        }
    }
}

} // verus!
