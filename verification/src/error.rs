//! The closed taxonomy of validation failures. Every fallible operation in
//! this crate reports exactly one of these kinds; the conversion kinds wrap
//! the kind of a nested failure when a caller hands an unvalidated value to
//! an operation that accepts one.
use vstd::prelude::*;

verus! {

/// One validation failure. Each parsing or construction operation states in
/// its contract exactly which kind it returns for which inputs.
#[derive(Clone, Copy, Debug, PartialEq, Eq, Structural)]
pub enum ErrorKind {
    /// A value handed to a collection-descend operation was not a valid
    /// collection path or collection identifier.
    CollectionIdConversion,
    /// A value handed to a collection-path-descend operation was not a
    /// valid collection path.
    CollectionPathConversion,
    /// A character outside the permitted class occurred.
    ContainsInvalidCharacter,
    /// An identifier contained a `'/'`.
    ContainsSlash,
    /// A value handed to a document-descend operation was not a valid
    /// document identifier.
    DocumentIdConversion,
    /// A value handed to a document-path-descend operation was not a valid
    /// document path.
    DocumentPathConversion,
    /// An identifier ended with a hyphen.
    EndsWithHyphen,
    /// A fixed literal segment of a fully-qualified name was wrong.
    InvalidName,
    /// A fully-qualified name had the wrong number of `/`-separated parts.
    InvalidNumberOfPathComponents,
    /// A length in bytes fell outside the permitted bounds.
    LengthOutOfBounds,
    /// An identifier both started and ended with a double underscore.
    MatchesReservedIdPattern,
    /// A document path had no `'/'` at all.
    NotContainsSlash,
    /// An identifier was exactly `"."` or `".."`.
    SinglePeriodOrDoublePeriods,
    /// An identifier started with something other than a lowercase letter.
    StartsWithNonLetter,
}

/// An error of this crate: the kind of the failure, and, for the conversion
/// kinds, the kind of the nested failure that the conversion wrapped.
#[derive(Debug)]
pub struct Error {
    kind: ErrorKind,
    cause: Option<ErrorKind>,
}

impl Error {
    /// The kind of this failure.
    pub closed spec fn spec_kind(&self) -> ErrorKind {
        self.kind
    }

    /// The nested failure wrapped by a conversion kind, if any.
    pub closed spec fn spec_cause(&self) -> Option<ErrorKind> {
        self.cause
    }

    /// The kind of this failure.
    #[verifier::when_used_as_spec(spec_kind)]
    pub fn kind(&self) -> (k: ErrorKind)
        ensures
            k == self.spec_kind(),
    {
        self.kind
    }

    /// The nested failure wrapped by a conversion kind, if any.
    #[verifier::when_used_as_spec(spec_cause)]
    pub fn cause(&self) -> (c: Option<ErrorKind>)
        ensures
            c == self.spec_cause(),
    {
        self.cause
    }

    pub(crate) fn new(kind: ErrorKind) -> (e: Error)
        ensures
            e.spec_kind() == kind,
            e.spec_cause() is None,
    {
        Error { kind, cause: None }
    }

    pub(crate) fn wrap(kind: ErrorKind, cause: ErrorKind) -> (e: Error)
        ensures
            e.spec_kind() == kind,
            e.spec_cause() == Some(cause),
    {
        Error { kind, cause: Some(cause) }
    }
}

} // verus!
