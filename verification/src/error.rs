//! The failure taxonomy of schema derivation. Every error carries the text
//! of the offending type expression for diagnostics.

use vstd::prelude::*;

verus! {

/// A reason why a derivation failed. Propagation is fail-fast: the first
/// error aborts the whole derivation and no partial schema is returned.
#[derive(Debug, PartialEq)]
pub enum Error {
    /// A generic parameter slot filled with something other than a type.
    NonTypeGenericArgument(String),
    /// A generic container name used with more than one type parameter where
    /// exactly one is required.
    MultipleArgs(String),
    /// A name that syntactically requires a parameter list but has none.
    MissingAngleBrackets(String),
    /// A generic container name used with zero type parameters where exactly
    /// one is required.
    MissingArgs(String),
    /// A named-type reference with no identifier segments.
    EmptyPath(String),
    /// A structural field lacking a name; positional-only fields are
    /// unsupported.
    NamedFieldMissingIdent(String),
}

/// Model of `Error`.
pub enum ErrorV {
    NonTypeGenericArgument { text: Seq<char> },
    MultipleArgs { text: Seq<char> },
    MissingAngleBrackets { text: Seq<char> },
    MissingArgs { text: Seq<char> },
    EmptyPath { text: Seq<char> },
    NamedFieldMissingIdent { text: Seq<char> },
}

pub open spec fn error_view(e: Error) -> ErrorV {
    match e {
        Error::NonTypeGenericArgument(t) => ErrorV::NonTypeGenericArgument { text: t@ },
        Error::MultipleArgs(t) => ErrorV::MultipleArgs { text: t@ },
        Error::MissingAngleBrackets(t) => ErrorV::MissingAngleBrackets { text: t@ },
        Error::MissingArgs(t) => ErrorV::MissingArgs { text: t@ },
        Error::EmptyPath(t) => ErrorV::EmptyPath { text: t@ },
        Error::NamedFieldMissingIdent(t) => ErrorV::NamedFieldMissingIdent { text: t@ },
    }
}

impl View for Error {
    type V = ErrorV;

    open spec fn view(&self) -> ErrorV {
        error_view(*self)
    }
}

/// The offending type-expression text carried by an error.
pub open spec fn spec_error_text(e: ErrorV) -> Seq<char> {
    match e {
        ErrorV::NonTypeGenericArgument { text } => text,
        ErrorV::MultipleArgs { text } => text,
        ErrorV::MissingAngleBrackets { text } => text,
        ErrorV::MissingArgs { text } => text,
        ErrorV::EmptyPath { text } => text,
        ErrorV::NamedFieldMissingIdent { text } => text,
    }
}

/// A short description of an error, made of the failure kind and the
/// offending type-expression text.
pub open spec fn spec_error_message(e: ErrorV) -> Seq<char> {
    match e {
        ErrorV::NonTypeGenericArgument { text } => "non-type generic argument: "@ + text,
        ErrorV::MultipleArgs { text } => "more than one generic argument: "@ + text,
        ErrorV::MissingAngleBrackets { text } => "missing angle brackets: "@ + text,
        ErrorV::MissingArgs { text } => "missing generic argument: "@ + text,
        ErrorV::EmptyPath { text } => "empty type path: "@ + text,
        ErrorV::NamedFieldMissingIdent { text } => "field without a name, of type: "@ + text,
    }
}

impl Error {
    /// The offending type-expression text carried by this error.
    pub fn text(&self) -> (r: &String)
        ensures
            r@ == spec_error_text(self@),
    {
        match self {
            Error::NonTypeGenericArgument(t) => t,
            Error::MultipleArgs(t) => t,
            Error::MissingAngleBrackets(t) => t,
            Error::MissingArgs(t) => t,
            Error::EmptyPath(t) => t,
            Error::NamedFieldMissingIdent(t) => t,
        }
    }

    /// A readable description of this error.
    pub fn message(&self) -> (r: String)
        ensures
            r@ == spec_error_message(self@),
    {
        match self {
            Error::NonTypeGenericArgument(t) => String::from_str(
                "non-type generic argument: ",
            ).concat(t.as_str()),
            Error::MultipleArgs(t) => String::from_str(
                "more than one generic argument: ",
            ).concat(t.as_str()),
            Error::MissingAngleBrackets(t) => String::from_str(
                "missing angle brackets: ",
            ).concat(t.as_str()),
            Error::MissingArgs(t) => String::from_str(
                "missing generic argument: ",
            ).concat(t.as_str()),
            Error::EmptyPath(t) => String::from_str("empty type path: ").concat(t.as_str()),
            Error::NamedFieldMissingIdent(t) => String::from_str(
                "field without a name, of type: ",
            ).concat(t.as_str()),
        }
    }
}

} // verus!
