use vstd::prelude::*;

verus! {

/// The error taxonomy shared by the account and todo services.
///
/// Each variant carries a human-readable message; callers decide what to do
/// by the variant alone.
#[derive(Debug)]
pub enum Error {
    /// The entity asked for does not exist.
    NotFound(String),
    /// The caller is authenticated but may not act on this resource.
    Forbidden(String),
    /// The request is well formed but not applicable in the current state.
    OperationNotApplicable(String),
    /// Any other failure, storage and cryptographic ones included.
    Unknown(String),
}

/// The variant of an [`Error`], without its message.
#[derive(Debug, Clone, Copy, PartialEq, Eq, Structural)]
pub enum ErrorKind {
    NotFound,
    Forbidden,
    OperationNotApplicable,
    Unknown,
}

impl Error {
    pub open spec fn spec_kind(&self) -> ErrorKind {
        match self {
            Error::NotFound(_) => ErrorKind::NotFound,
            Error::Forbidden(_) => ErrorKind::Forbidden,
            Error::OperationNotApplicable(_) => ErrorKind::OperationNotApplicable,
            Error::Unknown(_) => ErrorKind::Unknown,
        }
    }

    /// The variant of this error.
    #[verifier::when_used_as_spec(spec_kind)]
    pub fn kind(&self) -> (r: ErrorKind)
        ensures
            r == self.spec_kind(),
    {
        match self {
            Error::NotFound(_) => ErrorKind::NotFound,
            Error::Forbidden(_) => ErrorKind::Forbidden,
            Error::OperationNotApplicable(_) => ErrorKind::OperationNotApplicable,
            Error::Unknown(_) => ErrorKind::Unknown,
        }
    }

    /// The message carried by this error.
    pub fn message(&self) -> (r: &String)
        ensures
            r == match self {
                Error::NotFound(m) => m,
                Error::Forbidden(m) => m,
                Error::OperationNotApplicable(m) => m,
                Error::Unknown(m) => m,
            },
    {
        match self {
            Error::NotFound(m) => m,
            Error::Forbidden(m) => m,
            Error::OperationNotApplicable(m) => m,
            Error::Unknown(m) => m,
        }
    }
}

} // verus!
