//! A unified error value: one string-carrying error type that collapses
//! grammar, regex and symbol-lookup failures, as well as failures coming
//! from structured-data parsing, I/O and stylesheet compilation, into a
//! single result channel.
//!
//! Failures that originate in this system's own logic get a fixed label;
//! failures of the underlying libraries keep the description text those
//! libraries display, unchanged, so nothing is prefixed twice.
use vstd::prelude::*;

pub mod foreign;

verus! {

use vstd::string::StringExecFns;
use vstd::string::to_string_from_display_ensures;

/// The sole error representation of this library: a human-readable message.
#[derive(Debug)]
pub struct Error(pub String);

/// The two-outcome computation result used by callers of this library.
pub type Result<T> = core::result::Result<T, Error>;

impl Error {
    /// The message carried by this error, as a sequence of characters.
    pub open spec fn message(&self) -> Seq<char> {
        self.0@
    }

    /// Builds a grammar-definition error: the fixed label
    /// "Grammar error: " followed by the given message, unchanged.
    pub fn grammar(message: &str) -> (e: Error)
        ensures
            e.message() == "Grammar error: "@ + message@,
    {
        let mut s = "Grammar error: ".to_owned();
        s.append(message);
        Error(s)
    }

    /// Builds a regex-construction error: the fixed label
    /// "Regex error: " followed by the given message, unchanged.
    pub fn regex(message: &str) -> (e: Error)
        ensures
            e.message() == "Regex error: "@ + message@,
    {
        let mut s = "Regex error: ".to_owned();
        s.append(message);
        Error(s)
    }

    /// Builds an error reporting that the named symbol was referenced but
    /// never defined; the name is embedded back-tick-quoted.
    pub fn undefined_symbol(name: &str) -> (e: Error)
        ensures
            e.message() == "Undefined symbol `"@ + name@ + "`"@,
    {
        let mut s = "Undefined symbol `".to_owned();
        s.append(name);
        s.append("`");
        Error(s)
    }
}

impl core::convert::From<serde_json::Error> for Error {
    /// Converts a structured-data parse failure: the message is the text
    /// the failure displays as, with no label added. Nothing more is
    /// assumed of that text, since a parse failure that wraps an I/O
    /// failure displays whatever its payload does.
    fn from(error: serde_json::Error) -> (r: Error)
        ensures
            to_string_from_display_ensures::<serde_json::Error>(&error, r.0),
    {
        Error(error.to_string())
    }
}

// The text such a failure displays as is not a function of the value (a
// payload's own Display impl decides it), so no spec-level conversion
// function is claimed; `from` above carries the relational contract.
impl vstd::std_specs::convert::FromSpecImpl<serde_json::Error> for Error {
    open spec fn obeys_from_spec() -> bool {
        false
    }

    open spec fn from_spec(v: serde_json::Error) -> Error {
        arbitrary()
    }
}

impl core::convert::From<std::io::Error> for Error {
    /// Converts an I/O failure: the message is the text the failure
    /// displays as, with no label added. Nothing more is assumed of that
    /// text, since an I/O failure displays its custom payload or the
    /// platform's own wording for an OS error code.
    fn from(error: std::io::Error) -> (r: Error)
        ensures
            to_string_from_display_ensures::<std::io::Error>(&error, r.0),
    {
        Error(error.to_string())
    }
}

// As above: the displayed text is not a function of the value alone.
impl vstd::std_specs::convert::FromSpecImpl<std::io::Error> for Error {
    open spec fn obeys_from_spec() -> bool {
        false
    }

    open spec fn from_spec(v: std::io::Error) -> Error {
        arbitrary()
    }
}

impl core::convert::From<rsass::Error> for Error {
    /// Converts a stylesheet-compilation failure: the message is the text
    /// the failure displays as, with no label added. Nothing more is
    /// assumed of that text, since a compilation failure that wraps an
    /// I/O failure displays whatever its payload does.
    fn from(error: rsass::Error) -> (r: Error)
        ensures
            to_string_from_display_ensures::<rsass::Error>(&error, r.0),
    {
        Error(error.to_string())
    }
}

// As above: the displayed text is not a function of the value alone.
impl vstd::std_specs::convert::FromSpecImpl<rsass::Error> for Error {
    open spec fn obeys_from_spec() -> bool {
        false
    }

    open spec fn from_spec(v: rsass::Error) -> Error {
        arbitrary()
    }
}

impl core::convert::From<String> for Error {
    /// A string is itself a valid error message: the identity conversion.
    fn from(error: String) -> (r: Error) {
        Error(error)
    }
}

impl vstd::std_specs::convert::FromSpecImpl<String> for Error {
    open spec fn obeys_from_spec() -> bool {
        true
    }

    open spec fn from_spec(v: String) -> Error {
        Error(v)
    }
}

/// Law: converting a plain string yields an error whose message equals that
/// string exactly, the identity conversion.
pub proof fn lemma_string_conversion_is_identity(s: String)
    ensures
        <Error as vstd::std_specs::convert::FromSpec<String>>::obeys_from_spec(),
        <Error as vstd::std_specs::convert::FromSpec<String>>::from_spec(s).message() == s@,
{
}

} // verus!
