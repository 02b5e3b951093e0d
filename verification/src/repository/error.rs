use vstd::prelude::*;

verus! {

/// The recoverable failures of a repository operation.
#[derive(Clone, Copy, Debug, PartialEq, Eq, Structural)]
pub enum RepoError {
    /// The name is already used by an entity of the same kind.
    DuplicateName,
    /// The nutrition lookup did not deliver a usable answer.
    UpstreamUnavailable,
    /// No entity has the given identifier or name.
    NotFound,
    /// A meal names a dish identifier that no stored dish has.
    InvalidReference,
}

impl RepoError {
    /// The integer that stands for this failure in a response body.
    pub open spec fn spec_code(self) -> int {
        match self {
            RepoError::DuplicateName => -2,
            RepoError::UpstreamUnavailable => -4,
            RepoError::NotFound => -5,
            RepoError::InvalidReference => -6,
        }
    }

    /// The integer that stands for this failure in a response body.
    pub fn code(self) -> (c: i32)
        ensures
            c == self.spec_code(),
    {
        match self {
            RepoError::DuplicateName => -2,
            RepoError::UpstreamUnavailable => -4,
            RepoError::NotFound => -5,
            RepoError::InvalidReference => -6,
        }
    }
}

/// The result with what it holds on success taken by its view.
pub open spec fn view_of<T: View>(result: Result<T, RepoError>) -> Result<T::V, RepoError> {
    match result {
        Ok(value) => Ok(value@),
        Err(error) => Err(error),
    }
}

} // verus!
