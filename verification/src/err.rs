//! The failure taxonomy of the generator.
//!
//! `Input`, `Type` and `Io` failures are returned as values up through
//! extraction, generation and planning; the orchestrator's caller treats any
//! of them as fatal to the whole build.  A non-zero exit of an external tool
//! is not a value of this type: it is detected right after the invocation and
//! aborts the process.

use vstd::prelude::*;

verus! {

/// The mathematical value of an [`Error`]: the same variants over character
/// sequences.
pub enum ErrV {
    Input(Seq<char>),
    Type(Seq<char>),
    Conflict(Seq<char>, Seq<char>),
    Io(Seq<char>),
}

/// One failure of extraction, generation or planning.
#[derive(Debug, PartialEq)]
pub enum Error {
    /// A malformed or disallowed input declaration, or a missing source file.
    Input(String),
    /// A type token outside the supported scalar table.
    Type(String),
    /// Two fields designated clock; carries both field names in
    /// declaration order.
    Conflict(String, String),
    /// A filesystem failure, as reported by the caller.
    Io(String),
}

impl View for Error {
    type V = ErrV;

    open spec fn view(&self) -> ErrV {
        match self {
            Error::Input(m) => ErrV::Input(m@),
            Error::Type(m) => ErrV::Type(m@),
            Error::Conflict(a, b) => ErrV::Conflict(a@, b@),
            Error::Io(m) => ErrV::Io(m@),
        }
    }
}

impl ErrV {
    /// The rendering of each failure as one line of text.
    pub open spec fn msg(self) -> Seq<char> {
        match self {
            ErrV::Input(m) => "input: "@ + m,
            ErrV::Type(m) => "type: "@ + m,
            ErrV::Conflict(a, b) => "input: fields "@ + a + " and "@ + b
                + " cannot both be declared clock"@,
            ErrV::Io(m) => "io: "@ + m,
        }
    }
}

impl Error {
    /// The human-readable message for this failure.
    pub fn message(&self) -> (r: String)
        ensures
            r@ == self@.msg(),
    {
        match self {
            Error::Input(m) => {
                let mut s = String::from_str("input: ");
                s.append(m.as_str());
                s
            },
            Error::Type(m) => {
                let mut s = String::from_str("type: ");
                s.append(m.as_str());
                s
            },
            Error::Conflict(a, b) => {
                let mut s = String::from_str("input: fields ");
                s.append(a.as_str());
                s.append(" and ");
                s.append(b.as_str());
                s.append(" cannot both be declared clock");
                s
            },
            Error::Io(m) => {
                let mut s = String::from_str("io: ");
                s.append(m.as_str());
                s
            },
        }
    }
}

} // verus!
