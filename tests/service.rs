use base64::engine::general_purpose::STANDARD;
use base64::Engine;
use solana_sdk::pubkey::Pubkey;
use solana_sdk::signature::{Keypair, Signer};
use svs::error::BackendError;
use svs::proof_generator::ProofGenerator;
use svs::proofs::{
    check_api_key, equality_proof_at, parse_amounts, parse_openings, pubkey_validity_at, range_proof_at, validate_timestamp,
    validate_timestamp_at,
};
use svs::types::{Config, EqualityProofRequest, PubkeyValidityRequest, RangeProofRequest};

#[test]
fn config_defaults() {
    let c = Config::default();
    assert_eq!(c.port, 3001);
    assert_eq!(c.cors_origins, vec!["http://localhost:3000".to_string()]);
    assert!(c.api_keys.is_empty());
    assert_eq!(c.timestamp_tolerance_secs, 300);
}

#[test]
fn timestamp_window() {
    assert!(validate_timestamp_at(1000, 300, 1300).is_ok());
    assert!(validate_timestamp_at(1600, 300, 1300).is_ok());
    assert!(matches!(validate_timestamp_at(999, 300, 1300), Err(BackendError::RequestExpired)));
    assert!(matches!(validate_timestamp_at(1601, 300, 1300), Err(BackendError::RequestExpired)));
    assert!(matches!(validate_timestamp_at(i64::MIN, 300, i64::MAX), Err(BackendError::RequestExpired)));
    assert!(matches!(validate_timestamp(0, 300), Err(BackendError::RequestExpired)));
}

#[test]
fn api_key_gate() {
    let none: Vec<String> = vec![];
    assert!(check_api_key(&none, None));
    let keys = vec!["alpha".to_string(), "beta".to_string()];
    assert!(check_api_key(&keys, Some("beta")));
    assert!(!check_api_key(&keys, Some("gamma")));
    assert!(!check_api_key(&keys, Some("bet")));
    assert!(!check_api_key(&keys, None));
}

#[test]
fn error_codes_and_statuses() {
    assert_eq!(BackendError::BadRequest("x".to_string()).code(), "BAD_REQUEST");
    assert_eq!(BackendError::BadRequest("x".to_string()).status_code(), 400);
    assert_eq!(BackendError::ProofGeneration("x".to_string()).code(), "PROOF_GENERATION_FAILED");
    assert_eq!(BackendError::ProofGeneration("x".to_string()).status_code(), 500);
    assert_eq!(BackendError::RequestExpired.code(), "REQUEST_EXPIRED");
    assert_eq!(BackendError::InvalidPubkey("x".to_string()).status_code(), 400);
    assert_eq!(BackendError::Internal("x".to_string()).status_code(), 500);
    assert_eq!(BackendError::InvalidSignature("x".to_string()).code(), "INVALID_SIGNATURE");
}

fn signed_pubkey_request(now: i64) -> PubkeyValidityRequest {
    let wallet = Keypair::new();
    let account = Pubkey::new_unique();
    let message = ProofGenerator::construct_request_message(now, &account.to_bytes());
    let signature = wallet.sign_message(&message);
    let elgamal_signature = wallet.sign_message(b"ElGamalSecretKey");
    PubkeyValidityRequest {
        wallet_pubkey: wallet.pubkey().to_string(),
        token_account: account.to_string(),
        timestamp: now,
        request_signature: STANDARD.encode(signature.as_ref()),
        elgamal_signature: STANDARD.encode(elgamal_signature.as_ref()),
    }
}

#[test]
fn pubkey_validity_round_trip() {
    let now = 1_706_500_000i64;
    let req = signed_pubkey_request(now);
    let resp = pubkey_validity_at(300, &req, now + 10).unwrap();
    let pubkey = STANDARD.decode(&resp.elgamal_pubkey).unwrap();
    assert_eq!(pubkey.len(), 32);
    assert!(!STANDARD.decode(&resp.proof_data).unwrap().is_empty());
}

#[test]
fn pubkey_validity_refusals() {
    let now = 1_706_500_000i64;
    let req = signed_pubkey_request(now);
    assert!(matches!(pubkey_validity_at(300, &req, now + 301), Err(BackendError::RequestExpired)));
    let mut tampered = req.clone();
    tampered.timestamp = now + 1;
    assert!(matches!(pubkey_validity_at(300, &tampered, now), Err(BackendError::InvalidSignature(_))));
    let mut bad_key = req.clone();
    bad_key.wallet_pubkey = "0OIl".to_string();
    assert!(matches!(pubkey_validity_at(300, &bad_key, now), Err(BackendError::InvalidPubkey(_))));
}

#[test]
fn range_request_refusals() {
    let now = 1_706_500_000i64;
    let wallet = Keypair::new();
    let message = ProofGenerator::construct_range_request_message(now);
    let signature = wallet.sign_message(&message);
    let opening = STANDARD.encode([0u8; 32]);
    let mut req = RangeProofRequest {
        wallet_pubkey: wallet.pubkey().to_string(),
        timestamp: now,
        request_signature: STANDARD.encode(signature.as_ref()),
        amounts: vec!["+100".to_string()],
        commitment_blindings: vec![opening.clone()],
    };
    assert!(range_proof_at(300, &req, now).is_ok());
    req.amounts = vec!["-1".to_string()];
    assert!(matches!(range_proof_at(300, &req, now), Err(BackendError::BadRequest(_))));
    req.amounts = vec!["1".to_string(), "2".to_string(), "3".to_string()];
    req.commitment_blindings = vec![opening.clone(), opening.clone(), opening];
    assert!(matches!(range_proof_at(300, &req, now), Err(BackendError::BadRequest(_))));
    req.timestamp = now + 1;
    assert!(matches!(range_proof_at(300, &req, now), Err(BackendError::InvalidSignature(_))));
}

#[test]
fn pubkey_validity_answers_derived_key() {
    let now = 1_706_500_000i64;
    let req = signed_pubkey_request(now);
    let resp = pubkey_validity_at(300, &req, now).unwrap();
    let sig = ProofGenerator::parse_signature(&req.elgamal_signature).unwrap();
    let account = ProofGenerator::parse_pubkey(&req.token_account).unwrap();
    let keys = ProofGenerator::derive_elgamal_keypair(&sig, &account).unwrap();
    assert_eq!(resp.elgamal_pubkey, STANDARD.encode(keys.pubkey));
}

fn signed_equality_request(now: i64) -> EqualityProofRequest {
    let wallet = Keypair::new();
    let account = Pubkey::new_unique();
    let message = ProofGenerator::construct_request_message(now, &account.to_bytes());
    let signature = wallet.sign_message(&message);
    let elgamal_signature = wallet.sign_message(b"ElGamalSecretKey");
    let sig = <[u8; 64]>::try_from(elgamal_signature.as_ref()).unwrap();
    let keys = ProofGenerator::derive_elgamal_keypair(&sig, &account.to_bytes()).unwrap();
    let ciphertext = keys.keypair.pubkey().encrypt(42u64);
    EqualityProofRequest {
        wallet_pubkey: wallet.pubkey().to_string(),
        token_account: account.to_string(),
        timestamp: now,
        request_signature: STANDARD.encode(signature.as_ref()),
        elgamal_signature: STANDARD.encode(elgamal_signature.as_ref()),
        current_ciphertext: STANDARD.encode(ciphertext.to_bytes()),
        amount: "42".to_string(),
    }
}

#[test]
fn equality_proof_round_trip() {
    let now = 1_706_500_000i64;
    let req = signed_equality_request(now);
    let resp = equality_proof_at(300, &req, now).unwrap();
    assert!(!STANDARD.decode(&resp.proof_data).unwrap().is_empty());
}

#[test]
fn equality_proof_refusals() {
    let now = 1_706_500_000i64;
    let req = signed_equality_request(now);
    assert!(matches!(equality_proof_at(300, &req, now - 400), Err(BackendError::RequestExpired)));
    let mut bad_amount = req.clone();
    bad_amount.amount = "4x".to_string();
    assert!(matches!(equality_proof_at(300, &bad_amount, now), Err(BackendError::BadRequest(_))));
    let mut bad_ct = req.clone();
    bad_ct.current_ciphertext = STANDARD.encode([0xFFu8; 64]);
    assert!(matches!(equality_proof_at(300, &bad_ct, now), Err(BackendError::BadRequest(_))));
    let mut tampered = req.clone();
    tampered.timestamp = now + 1;
    assert!(matches!(equality_proof_at(300, &tampered, now), Err(BackendError::InvalidSignature(_))));
    let mut bad_account = req;
    bad_account.token_account = "l".to_string();
    assert!(matches!(equality_proof_at(300, &bad_account, now), Err(BackendError::InvalidPubkey(_))));
}

#[test]
fn amounts_and_openings_parse_in_order() {
    let amounts = parse_amounts(&vec!["7".to_string(), "+8".to_string()]).unwrap();
    assert_eq!(amounts, vec![7u64, 8]);
    assert!(matches!(parse_amounts(&vec!["18446744073709551616".to_string()]), Err(BackendError::BadRequest(_))));
    let openings = parse_openings(&vec![STANDARD.encode([0u8; 32]), STANDARD.encode([2u8; 32])]).unwrap();
    assert_eq!(openings.len(), 2);
    assert!(matches!(parse_openings(&vec![STANDARD.encode([0xFFu8; 32])]), Err(BackendError::BadRequest(_))));
}
