use vstd::prelude::*;

verus! {

/// Failure kinds of the cryptographic core.
#[derive(Debug, Clone, Copy, PartialEq, Eq, Structural)]
pub enum CryptoError {
    /// The handle is not live, or names an object of another capability type.
    InvalidHandle,
    /// The operation is not legal in the object's current lifecycle phase.
    InvalidState,
    /// A scalar argument is out of the algorithm's range.
    InvalidArgument,
    /// The object's usage flags do not allow the operation.
    NotAuthorized,
    /// The operation is unknown or its algorithm is not enabled.
    UnsupportedOperation,
    /// The handle table is full.
    ResourceExhausted,
    /// The context has been shut down.
    ContextClosed,
    /// An opaque failure reported by a cryptographic backend.
    AlgorithmFailure { reason: u32 },
}

/// Boundary error codes, one per failure kind.
pub const CODE_PROHIBITED_OPERATION: u16 = 4;
pub const CODE_UNSUPPORTED_ALGORITHM: u16 = 6;
pub const CODE_INVALID_LENGTH: u16 = 9;
pub const CODE_ALGORITHM_FAILURE: u16 = 12;
pub const CODE_CLOSED: u16 = 14;
pub const CODE_INVALID_HANDLE: u16 = 15;
pub const CODE_TOO_MANY_HANDLES: u16 = 18;
pub const CODE_INVALID_OPERATION: u16 = 22;

pub open spec fn code_of(e: CryptoError) -> u16 {
    match e {
        CryptoError::InvalidHandle => CODE_INVALID_HANDLE,
        CryptoError::InvalidState => CODE_INVALID_OPERATION,
        CryptoError::InvalidArgument => CODE_INVALID_LENGTH,
        CryptoError::NotAuthorized => CODE_PROHIBITED_OPERATION,
        CryptoError::UnsupportedOperation => CODE_UNSUPPORTED_ALGORITHM,
        CryptoError::ResourceExhausted => CODE_TOO_MANY_HANDLES,
        CryptoError::ContextClosed => CODE_CLOSED,
        CryptoError::AlgorithmFailure { .. } => CODE_ALGORITHM_FAILURE,
    }
}

/// Two errors are of the same kind (an algorithm failure of any reason is one kind).
pub open spec fn same_kind(a: CryptoError, b: CryptoError) -> bool {
    match (a, b) {
        (CryptoError::AlgorithmFailure { .. }, CryptoError::AlgorithmFailure { .. }) => true,
        _ => a == b,
    }
}

impl CryptoError {
    /// The boundary code of this failure kind.
    pub fn code(&self) -> (r: u16)
        ensures
            r == code_of(*self),
    {
        match self {
            CryptoError::InvalidHandle => CODE_INVALID_HANDLE,
            CryptoError::InvalidState => CODE_INVALID_OPERATION,
            CryptoError::InvalidArgument => CODE_INVALID_LENGTH,
            CryptoError::NotAuthorized => CODE_PROHIBITED_OPERATION,
            CryptoError::UnsupportedOperation => CODE_UNSUPPORTED_ALGORITHM,
            CryptoError::ResourceExhausted => CODE_TOO_MANY_HANDLES,
            CryptoError::ContextClosed => CODE_CLOSED,
            CryptoError::AlgorithmFailure { .. } => CODE_ALGORITHM_FAILURE,
        }
    }
}

/// The translation is faithful: two failures share a boundary code only when
/// they are of the same kind, and no kind maps to the success code zero.
pub proof fn lemma_codes_distinguish_kinds(a: CryptoError, b: CryptoError)
    ensures
        code_of(a) == code_of(b) <==> same_kind(a, b),
        code_of(a) != 0,
{
}

} // verus!
