use vstd::prelude::*;

use solana_zk_sdk::encryption::pedersen::PedersenOpening;

use crate::bindings::{base58_pubkey, base64_encoded, decimal_u64, ed25519_valid, encode_base64, parse_u64, unix_now};
use crate::error::BackendError;
use crate::proof_generator::{
    ciphertext_text_valid, derived_elgamal_pubkey, opening_text_valid, range_request_message, request_message,
    signature_from_text, valid_batch_size, ProofGenerator,
};
use crate::types::{
    AppState, EqualityProofRequest, EqualityProofResponse, PubkeyValidityRequest, PubkeyValidityResponse,
    RangeProofRequest, RangeProofResponse,
};

verus! {

/// A request signed at `timestamp` is still acceptable at `now`.
pub open spec fn timestamp_fresh(timestamp: i64, now: i64, tolerance_secs: i64) -> bool {
    -tolerance_secs <= now - timestamp <= tolerance_secs
}

/// Both keys parse, the signature text is 64 bytes, and it signs the request message.
pub open spec fn signed_request(wallet: Seq<char>, token_account: Seq<char>, timestamp: i64, signature: Seq<char>) -> bool {
    match (base58_pubkey(wallet), base58_pubkey(token_account), signature_from_text(signature)) {
        (Some(w), Some(a), Some(s)) => ed25519_valid(s, w, request_message(timestamp, a)),
        _ => false,
    }
}

/// The wallet key parses, the signature text is 64 bytes, and it signs the range message.
pub open spec fn signed_range_request(wallet: Seq<char>, timestamp: i64, signature: Seq<char>) -> bool {
    match (base58_pubkey(wallet), signature_from_text(signature)) {
        (Some(w), Some(s)) => ed25519_valid(s, w, range_request_message(timestamp)),
        _ => false,
    }
}

/// Whether a request that presents `provided` may pass: open access when no key is
/// configured, else the key must be one of `api_keys`.
pub open spec fn api_key_accepted(api_keys: Seq<String>, provided: Option<Seq<char>>) -> bool {
    api_keys.len() == 0 || match provided {
        Some(p) => exists|i: int| 0 <= i < api_keys.len() && (#[trigger] api_keys[i])@ == p,
        None => false,
    }
}

fn same_bytes(a: &[u8], b: &[u8]) -> (r: bool)
    ensures
        r == (a@ == b@),
{
    if a.len() != b.len() {
        return false;
    }
    let mut i: usize = 0;
    while i < a.len()
        invariant
            i <= a@.len(),
            a@.len() == b@.len(),
            forall|j: int| 0 <= j < i ==> a@[j] == b@[j],
        decreases a@.len() - i,
    {
        if a[i] != b[i] {
            return false;
        }
        i = i + 1;
    }
    assert(a@ =~= b@);
    true
}

fn same_text(a: &str, b: &str) -> (r: bool)
    ensures
        r == (a@ == b@),
{
    let r = same_bytes(a.as_bytes(), b.as_bytes());
    proof {
        vstd::utf8::encode_utf8_decode_utf8(a@);
        vstd::utf8::encode_utf8_decode_utf8(b@);
    }
    r
}

/// Decides whether a request may pass the API-key gate.
pub fn check_api_key(api_keys: &Vec<String>, provided: Option<&str>) -> (r: bool)
    ensures
        r == api_key_accepted(api_keys@, match provided {
            Some(p) => Some(p@),
            None => None,
        }),
{
    if api_keys.len() == 0 {
        return true;
    }
    match provided {
        None => false,
        Some(p) => {
            let mut i: usize = 0;
            while i < api_keys.len()
                invariant
                    provided == Some(p),
                    api_keys@.len() > 0,
                    i <= api_keys@.len(),
                    forall|j: int| 0 <= j < i ==> (#[trigger] api_keys@[j])@ != p@,
                decreases api_keys@.len() - i,
            {
                if same_text(api_keys[i].as_str(), p) {
                    assert(api_keys@[i as int]@ == p@);
                    return true;
                }
                i = i + 1;
            }
            false
        },
    }
}

/// Refuses a request whose timestamp is more than `tolerance_secs` away from `now`.
pub fn validate_timestamp_at(timestamp: i64, tolerance_secs: i64, now: i64) -> (r: Result<(), BackendError>)
    ensures
        r is Ok <==> timestamp_fresh(timestamp, now, tolerance_secs),
        r is Err ==> r->Err_0 is RequestExpired,
{
    let diff: i128 = now as i128 - timestamp as i128;
    let abs: i128 = if diff < 0 {
        -diff
    } else {
        diff
    };
    if abs > tolerance_secs as i128 {
        return Err(BackendError::RequestExpired);
    }
    Ok(())
}

/// Refuses a request whose timestamp is more than `tolerance_secs` away from the clock.
pub fn validate_timestamp(timestamp: i64, tolerance_secs: i64) -> (r: Result<(), BackendError>)
    ensures
        r is Err ==> r->Err_0 is RequestExpired,
{
    validate_timestamp_at(timestamp, tolerance_secs, unix_now())
}

/// Both keys of a request parse.
pub open spec fn keys_parse(wallet: Seq<char>, token_account: Seq<char>) -> bool {
    base58_pubkey(wallet) is Some && base58_pubkey(token_account) is Some
}

/// Both signatures of a request decode to 64 bytes.
pub open spec fn signatures_parse(request_signature: Seq<char>, elgamal_signature: Seq<char>) -> bool {
    signature_from_text(request_signature) is Some && signature_from_text(elgamal_signature) is Some
}

/// Every amount text spells a 64-bit number.
pub open spec fn amounts_parse(texts: Seq<String>) -> bool {
    forall|i: int| 0 <= i < texts.len() ==> decimal_u64((#[trigger] texts[i])@) is Some
}

/// Every blinding text is base64 of a canonical scalar.
pub open spec fn openings_parse(texts: Seq<String>) -> bool {
    forall|i: int| 0 <= i < texts.len() ==> opening_text_valid((#[trigger] texts[i])@)
}

/// The amounts and blindings of a range request pair up in a batch the proof accepts.
pub open spec fn range_batch_ok(amounts: Seq<String>, blindings: Seq<String>) -> bool {
    amounts.len() == blindings.len() && valid_batch_size(amounts.len() as int)
}

/// Parses every amount text as a 64-bit number, in order.
pub fn parse_amounts(texts: &Vec<String>) -> (r: Result<Vec<u64>, BackendError>)
    ensures
        r is Ok <==> amounts_parse(texts@),
        match r {
            Ok(v) => v@.len() == texts@.len() && forall|i: int|
                0 <= i < texts@.len() ==> decimal_u64((#[trigger] texts@[i])@) == Some(v@[i]),
            Err(e) => e is BadRequest,
        },
{
    let mut amounts: Vec<u64> = Vec::new();
    let mut i: usize = 0;
    while i < texts.len()
        invariant
            i <= texts@.len(),
            amounts@.len() == i,
            forall|j: int| 0 <= j < i ==> decimal_u64((#[trigger] texts@[j])@) == Some(amounts@[j]),
        decreases texts@.len() - i,
    {
        match parse_u64(texts[i].as_str()) {
            Some(a) => amounts.push(a),
            None => return Err(BackendError::BadRequest("Invalid amount".to_string())),
        }
        i = i + 1;
    }
    Ok(amounts)
}

/// Parses every blinding text as a commitment opening, in order.
pub fn parse_openings(texts: &Vec<String>) -> (r: Result<Vec<PedersenOpening>, BackendError>)
    ensures
        r is Ok <==> openings_parse(texts@),
        match r {
            Ok(v) => v@.len() == texts@.len(),
            Err(e) => e is BadRequest,
        },
{
    let mut openings: Vec<PedersenOpening> = Vec::new();
    let mut i: usize = 0;
    while i < texts.len()
        invariant
            i <= texts@.len(),
            openings@.len() == i,
            forall|j: int| 0 <= j < i ==> opening_text_valid((#[trigger] texts@[j])@),
        decreases texts@.len() - i,
    {
        let o = ProofGenerator::parse_opening(texts[i].as_str())?;
        openings.push(o);
        i = i + 1;
    }
    Ok(openings)
}

/// Serves a key-validity proof request as of time `now`: checks freshness, parses the
/// keys and signatures, checks the request signature, derives the holder's encryption
/// keypair and proves it. The answer carries the derived public key.
pub fn pubkey_validity_at(tolerance_secs: i64, req: &PubkeyValidityRequest, now: i64) -> (r: Result<PubkeyValidityResponse, BackendError>)
    ensures
        r is Ok <==> timestamp_fresh(req.timestamp, now, tolerance_secs) && signed_request(
            req.wallet_pubkey@,
            req.token_account@,
            req.timestamp,
            req.request_signature@,
        ) && signature_from_text(req.elgamal_signature@) is Some,
        r is Ok ==> r->Ok_0.elgamal_pubkey@ == base64_encoded(
            derived_elgamal_pubkey(
                signature_from_text(req.elgamal_signature@)->Some_0,
                base58_pubkey(req.token_account@)->Some_0,
            ),
        ),
        (r is Err && r->Err_0 is RequestExpired) <==> !timestamp_fresh(req.timestamp, now, tolerance_secs),
        (r is Err && r->Err_0 is InvalidPubkey) <==> timestamp_fresh(req.timestamp, now, tolerance_secs)
            && !keys_parse(req.wallet_pubkey@, req.token_account@),
        (r is Err && r->Err_0 is InvalidSignature) <==> timestamp_fresh(req.timestamp, now, tolerance_secs)
            && keys_parse(req.wallet_pubkey@, req.token_account@) && !(signed_request(
            req.wallet_pubkey@,
            req.token_account@,
            req.timestamp,
            req.request_signature@,
        ) && signature_from_text(req.elgamal_signature@) is Some),
{
    validate_timestamp_at(req.timestamp, tolerance_secs, now)?;
    let wallet_pubkey = ProofGenerator::parse_pubkey(req.wallet_pubkey.as_str())?;
    let token_account = ProofGenerator::parse_pubkey(req.token_account.as_str())?;
    let request_signature = ProofGenerator::parse_signature(req.request_signature.as_str())?;
    let elgamal_signature = ProofGenerator::parse_signature(req.elgamal_signature.as_str())?;
    ProofGenerator::verify_request_signature(&wallet_pubkey, req.timestamp, &token_account, &request_signature)?;
    let elgamal_keypair = ProofGenerator::derive_elgamal_keypair(&elgamal_signature, &token_account)?;
    let (proof_data, elgamal_pubkey) = ProofGenerator::generate_pubkey_validity_proof(&elgamal_keypair)?;
    Ok(
        PubkeyValidityResponse {
            proof_data: encode_base64(proof_data.as_slice()),
            elgamal_pubkey: encode_base64(elgamal_pubkey.as_slice()),
        },
    )
}

/// Serves a key-validity proof request against the clock.
pub fn pubkey_validity(state: &AppState, req: &PubkeyValidityRequest) -> (r: Result<PubkeyValidityResponse, BackendError>)
    ensures
        r is Ok ==> signed_request(req.wallet_pubkey@, req.token_account@, req.timestamp, req.request_signature@)
            && signature_from_text(req.elgamal_signature@) is Some,
        r is Ok ==> r->Ok_0.elgamal_pubkey@ == base64_encoded(
            derived_elgamal_pubkey(
                signature_from_text(req.elgamal_signature@)->Some_0,
                base58_pubkey(req.token_account@)->Some_0,
            ),
        ),
        (r is Err && r->Err_0 is InvalidPubkey) ==> !keys_parse(req.wallet_pubkey@, req.token_account@),
        signed_request(req.wallet_pubkey@, req.token_account@, req.timestamp, req.request_signature@)
            && signature_from_text(req.elgamal_signature@) is Some && r is Err ==> r->Err_0 is RequestExpired,
{
    pubkey_validity_at(state.config.timestamp_tolerance_secs, req, unix_now())
}

/// Everything an equality request needs besides a fresh timestamp.
pub open spec fn equality_request_ok(req: EqualityProofRequest) -> bool {
    signed_request(req.wallet_pubkey@, req.token_account@, req.timestamp, req.request_signature@)
        && signature_from_text(req.elgamal_signature@) is Some && ciphertext_text_valid(req.current_ciphertext@)
        && decimal_u64(req.amount@) is Some
}

/// Serves an equality proof request as of time `now`: the checks of a key-validity
/// request, plus a valid ciphertext and a decimal amount; then proves that the
/// ciphertext encrypts the amount.
pub fn equality_proof_at(tolerance_secs: i64, req: &EqualityProofRequest, now: i64) -> (r: Result<EqualityProofResponse, BackendError>)
    ensures
        r is Ok <==> timestamp_fresh(req.timestamp, now, tolerance_secs) && equality_request_ok(*req),
        (r is Err && r->Err_0 is RequestExpired) <==> !timestamp_fresh(req.timestamp, now, tolerance_secs),
        (r is Err && r->Err_0 is InvalidPubkey) <==> timestamp_fresh(req.timestamp, now, tolerance_secs)
            && !keys_parse(req.wallet_pubkey@, req.token_account@),
        (r is Err && r->Err_0 is BadRequest) <==> timestamp_fresh(req.timestamp, now, tolerance_secs)
            && keys_parse(req.wallet_pubkey@, req.token_account@)
            && signatures_parse(req.request_signature@, req.elgamal_signature@) && !(ciphertext_text_valid(
            req.current_ciphertext@,
        ) && decimal_u64(req.amount@) is Some),
        (r is Err && r->Err_0 is InvalidSignature) <==> timestamp_fresh(req.timestamp, now, tolerance_secs)
            && keys_parse(req.wallet_pubkey@, req.token_account@) && (!signatures_parse(
            req.request_signature@,
            req.elgamal_signature@,
        ) || (ciphertext_text_valid(req.current_ciphertext@) && decimal_u64(req.amount@) is Some
            && !signed_request(req.wallet_pubkey@, req.token_account@, req.timestamp, req.request_signature@))),
{
    validate_timestamp_at(req.timestamp, tolerance_secs, now)?;
    let wallet_pubkey = ProofGenerator::parse_pubkey(req.wallet_pubkey.as_str())?;
    let token_account = ProofGenerator::parse_pubkey(req.token_account.as_str())?;
    let request_signature = ProofGenerator::parse_signature(req.request_signature.as_str())?;
    let elgamal_signature = ProofGenerator::parse_signature(req.elgamal_signature.as_str())?;
    let ciphertext = ProofGenerator::parse_ciphertext(req.current_ciphertext.as_str())?;
    let amount = match parse_u64(req.amount.as_str()) {
        Some(a) => a,
        None => return Err(BackendError::BadRequest("Invalid amount".to_string())),
    };
    ProofGenerator::verify_request_signature(&wallet_pubkey, req.timestamp, &token_account, &request_signature)?;
    let elgamal_keypair = ProofGenerator::derive_elgamal_keypair(&elgamal_signature, &token_account)?;
    let proof_data = ProofGenerator::generate_equality_proof(&elgamal_keypair, &ciphertext, amount)?;
    Ok(EqualityProofResponse { proof_data: encode_base64(proof_data.as_slice()) })
}

/// Serves an equality proof request against the clock.
pub fn equality_proof(state: &AppState, req: &EqualityProofRequest) -> (r: Result<EqualityProofResponse, BackendError>)
    ensures
        r is Ok ==> equality_request_ok(*req),
        equality_request_ok(*req) && r is Err ==> r->Err_0 is RequestExpired,
        (r is Err && r->Err_0 is InvalidPubkey) ==> !keys_parse(req.wallet_pubkey@, req.token_account@),
        (r is Err && r->Err_0 is BadRequest) ==> keys_parse(req.wallet_pubkey@, req.token_account@)
            && signatures_parse(req.request_signature@, req.elgamal_signature@) && !(ciphertext_text_valid(
            req.current_ciphertext@,
        ) && decimal_u64(req.amount@) is Some),
{
    equality_proof_at(state.config.timestamp_tolerance_secs, req, unix_now())
}

/// Everything a range request needs besides a fresh timestamp and the proof itself.
pub open spec fn range_request_ok(req: RangeProofRequest) -> bool {
    signed_range_request(req.wallet_pubkey@, req.timestamp, req.request_signature@) && amounts_parse(req.amounts@)
        && openings_parse(req.commitment_blindings@) && range_batch_ok(req.amounts@, req.commitment_blindings@)
}

/// Serves a range proof request as of time `now`: checks freshness and the range
/// request signature, parses every amount and opening, then proves the batch.
pub fn range_proof_at(tolerance_secs: i64, req: &RangeProofRequest, now: i64) -> (r: Result<RangeProofResponse, BackendError>)
    ensures
        r is Ok ==> timestamp_fresh(req.timestamp, now, tolerance_secs) && range_request_ok(*req),
        (r is Err && r->Err_0 is RequestExpired) <==> !timestamp_fresh(req.timestamp, now, tolerance_secs),
        (r is Err && r->Err_0 is InvalidPubkey) <==> timestamp_fresh(req.timestamp, now, tolerance_secs)
            && base58_pubkey(req.wallet_pubkey@) is None,
        (r is Err && r->Err_0 is InvalidSignature) <==> timestamp_fresh(req.timestamp, now, tolerance_secs)
            && base58_pubkey(req.wallet_pubkey@) is Some && !signed_range_request(
            req.wallet_pubkey@,
            req.timestamp,
            req.request_signature@,
        ),
        (r is Err && r->Err_0 is BadRequest) <==> timestamp_fresh(req.timestamp, now, tolerance_secs)
            && signed_range_request(req.wallet_pubkey@, req.timestamp, req.request_signature@) && !(amounts_parse(
            req.amounts@,
        ) && openings_parse(req.commitment_blindings@) && range_batch_ok(req.amounts@, req.commitment_blindings@)),
        (r is Err && r->Err_0 is ProofGeneration) ==> timestamp_fresh(req.timestamp, now, tolerance_secs)
            && range_request_ok(*req),
        r is Err ==> r->Err_0 is RequestExpired || r->Err_0 is InvalidPubkey || r->Err_0 is InvalidSignature
            || r->Err_0 is BadRequest || r->Err_0 is ProofGeneration,
{
    validate_timestamp_at(req.timestamp, tolerance_secs, now)?;
    let wallet_pubkey = ProofGenerator::parse_pubkey(req.wallet_pubkey.as_str())?;
    let request_signature = ProofGenerator::parse_signature(req.request_signature.as_str())?;
    ProofGenerator::verify_range_request_signature(&wallet_pubkey, req.timestamp, &request_signature)?;
    let amounts = parse_amounts(&req.amounts)?;
    let openings = parse_openings(&req.commitment_blindings)?;
    let proof_data = ProofGenerator::generate_range_proof(&amounts, &openings)?;
    Ok(RangeProofResponse { proof_data: encode_base64(proof_data.as_slice()) })
}

/// Serves a range proof request against the clock.
pub fn range_proof(state: &AppState, req: &RangeProofRequest) -> (r: Result<RangeProofResponse, BackendError>)
    ensures
        r is Ok ==> range_request_ok(*req),
        (r is Err && r->Err_0 is InvalidPubkey) ==> base58_pubkey(req.wallet_pubkey@) is None,
        (r is Err && r->Err_0 is InvalidSignature) ==> !signed_range_request(
            req.wallet_pubkey@,
            req.timestamp,
            req.request_signature@,
        ),
        (r is Err && r->Err_0 is BadRequest) ==> signed_range_request(req.wallet_pubkey@, req.timestamp, req.request_signature@)
            && !(amounts_parse(req.amounts@) && openings_parse(req.commitment_blindings@) && range_batch_ok(
            req.amounts@,
            req.commitment_blindings@,
        )),
        range_request_ok(*req) && r is Err ==> r->Err_0 is RequestExpired || r->Err_0 is ProofGeneration,
{
    range_proof_at(state.config.timestamp_tolerance_secs, req, unix_now())
}

} // verus!
