//! The error that a command hands back to the user interface.

use crate::utils::{strip_ansi_escapes, stripped};
use vstd::prelude::*;
use vstd::std_specs::convert::FromSpecImpl;

verus! {

/// A failure of a command, as the text of its report.
///
/// The text is kept as it was written, with whatever a terminal would need
/// to colour it. Only [`Error::serialize`] removes that.
#[derive(Debug, Clone, PartialEq, Eq)]
pub struct Error(pub String);

impl View for Error {
    type V = Seq<char>;

    /// The text of the report.
    open spec fn view(&self) -> Seq<char> {
        self.0@
    }
}

impl Error {
    /// The text of the report, unchanged.
    pub fn to_string(&self) -> (text: String)
        ensures
            text@ == self@,
    {
        self.0.clone()
    }

    /// The text that is sent to the user interface: the report without its
    /// escape sequences.
    pub fn serialize(&self) -> (text: String)
        ensures
            text@ == stripped(self@),
    {
        strip_ansi_escapes(self.0.as_str())
    }
}

impl From<String> for Error {
    /// The error whose report is `value`.
    fn from(value: String) -> (e: Error) {
        Error(value)
    }
}

impl FromSpecImpl<String> for Error {
    open spec fn obeys_from_spec() -> bool {
        true
    }

    open spec fn from_spec(value: String) -> Error {
        Error(value)
    }
}

impl From<Error> for String {
    /// The text of the report, unchanged.
    fn from(value: Error) -> (text: String) {
        value.0
    }
}

impl FromSpecImpl<Error> for String {
    open spec fn obeys_from_spec() -> bool {
        true
    }

    open spec fn from_spec(value: Error) -> String {
        value.0
    }
}

} // verus!
