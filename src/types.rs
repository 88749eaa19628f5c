use vstd::prelude::*;

use std::sync::Arc;

verus! {

/// Request for a proof that an encryption key belongs to a token account.
#[derive(Clone, Debug)]
pub struct PubkeyValidityRequest {
    /// Wallet key, base58.
    pub wallet_pubkey: String,
    /// Token account key, base58.
    pub token_account: String,
    /// Unix time at which the request was signed.
    pub timestamp: i64,
    /// Wallet signature over the request message, base64.
    pub request_signature: String,
    /// Wallet signature from which the encryption key is derived, base64.
    pub elgamal_signature: String,
}

/// Answer to a key-validity request.
#[derive(Clone, Debug)]
pub struct PubkeyValidityResponse {
    /// The proof, base64.
    pub proof_data: String,
    /// The derived encryption public key, base64.
    pub elgamal_pubkey: String,
}

/// Request for a proof that a ciphertext encrypts a stated amount.
#[derive(Clone, Debug)]
pub struct EqualityProofRequest {
    pub wallet_pubkey: String,
    pub token_account: String,
    pub timestamp: i64,
    pub request_signature: String,
    pub elgamal_signature: String,
    /// The current balance ciphertext, base64.
    pub current_ciphertext: String,
    /// The amount, as decimal text.
    pub amount: String,
}

/// Answer to an equality request.
#[derive(Clone, Debug)]
pub struct EqualityProofResponse {
    pub proof_data: String,
}

/// Request for a proof that committed amounts fit in 64 bits.
#[derive(Clone, Debug)]
pub struct RangeProofRequest {
    pub wallet_pubkey: String,
    pub timestamp: i64,
    pub request_signature: String,
    /// The amounts, as decimal text.
    pub amounts: Vec<String>,
    /// One commitment opening per amount, base64.
    pub commitment_blindings: Vec<String>,
}

/// Answer to a range request.
#[derive(Clone, Debug)]
pub struct RangeProofResponse {
    pub proof_data: String,
}

/// Answer to a health probe.
#[derive(Clone, Debug)]
pub struct HealthResponse {
    pub status: String,
    pub version: String,
    pub timestamp: i64,
}

/// Settings of the proof service.
#[derive(Clone, Debug)]
pub struct Config {
    pub port: u16,
    pub cors_origins: Vec<String>,
    /// Accepted API keys; none configured means open access.
    pub api_keys: Vec<String>,
    /// How far a request's timestamp may be from now, in seconds.
    pub timestamp_tolerance_secs: i64,
}

impl Default for Config {
    fn default() -> (r: Config)
        ensures
            r.port == 3001,
            r.cors_origins@.len() == 1,
            r.cors_origins@[0]@ == "http://localhost:3000"@,
            r.api_keys@.len() == 0,
            r.timestamp_tolerance_secs == 300,
    {
        Config {
            port: 3001,
            cors_origins: vec!["http://localhost:3000".to_string()],
            api_keys: Vec::new(),
            timestamp_tolerance_secs: 300,
        }
    }
}

/// State shared by the request handlers.
#[derive(Clone)]
pub struct AppState {
    pub config: Arc<Config>,
}

} // verus!
