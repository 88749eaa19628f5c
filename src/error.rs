use vstd::prelude::*;

verus! {

/// Failures of the vault ledger and the confidential orchestrator.
#[derive(Clone, Copy, Debug, PartialEq, Eq, Structural)]
pub enum VaultError {
    ZeroAmount,
    SlippageExceeded,
    VaultPaused,
    InvalidAssetDecimals,
    MathOverflow,
    DivisionByZero,
    InsufficientShares,
    InsufficientAssets,
    Unauthorized,
    DepositTooSmall,
    AccountNotConfigured,
    PendingBalanceNotApplied,
    InvalidProof,
    ConfidentialTransferNotInitialized,
    InvalidCiphertext,
}

/// Failures of the proof request service.
#[derive(Clone, Debug)]
pub enum BackendError {
    BadRequest(String),
    ProofGeneration(String),
    InvalidSignature(String),
    InvalidPubkey(String),
    RequestExpired,
    Internal(String),
}

/// Whether the fault lies with the service rather than the request.
pub open spec fn is_server_fault(e: BackendError) -> bool {
    e is ProofGeneration || e is Internal
}

impl BackendError {
    /// HTTP status for the error: 500 for service faults, 400 for request faults.
    pub fn status_code(&self) -> (r: u16)
        ensures
            r == (if is_server_fault(*self) { 500u16 } else { 400u16 }),
    {
        match self {
            BackendError::ProofGeneration(_) | BackendError::Internal(_) => 500,
            _ => 400,
        }
    }

    /// Stable machine-readable code of the error.
    pub fn code(&self) -> (r: &'static str)
        ensures
            r@ == error_code(*self),
    {
        proof {
            reveal_strlit("BAD_REQUEST");
            reveal_strlit("PROOF_GENERATION_FAILED");
            reveal_strlit("INVALID_SIGNATURE");
            reveal_strlit("INVALID_PUBKEY");
            reveal_strlit("REQUEST_EXPIRED");
            reveal_strlit("INTERNAL_ERROR");
        }
        match self {
            BackendError::BadRequest(_) => "BAD_REQUEST",
            BackendError::ProofGeneration(_) => "PROOF_GENERATION_FAILED",
            BackendError::InvalidSignature(_) => "INVALID_SIGNATURE",
            BackendError::InvalidPubkey(_) => "INVALID_PUBKEY",
            BackendError::RequestExpired => "REQUEST_EXPIRED",
            BackendError::Internal(_) => "INTERNAL_ERROR",
        }
    }
}

/// The machine-readable code of each error.
pub open spec fn error_code(e: BackendError) -> Seq<char> {
    match e {
        BackendError::BadRequest(_) => "BAD_REQUEST"@,
        BackendError::ProofGeneration(_) => "PROOF_GENERATION_FAILED"@,
        BackendError::InvalidSignature(_) => "INVALID_SIGNATURE"@,
        BackendError::InvalidPubkey(_) => "INVALID_PUBKEY"@,
        BackendError::RequestExpired => "REQUEST_EXPIRED"@,
        BackendError::Internal(_) => "INTERNAL_ERROR"@,
    }
}

/// Body of an error answer.
#[derive(Clone, Debug)]
pub struct ErrorResponse {
    pub error: String,
    pub code: String,
}

} // verus!
