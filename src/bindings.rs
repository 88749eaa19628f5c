//! Calls into outside crates, each with the contract this library relies on.
use vstd::prelude::*;
use vstd::arithmetic::power2::pow2;

use base64::engine::general_purpose::STANDARD;
use base64::Engine;
use solana_sdk::signature::{SeedDerivable, Signature};
use solana_zk_sdk::encryption::elgamal::{ElGamalCiphertext, ElGamalKeypair};
use solana_zk_sdk::encryption::pedersen::{Pedersen, PedersenCommitment, PedersenOpening};
use solana_zk_sdk::zk_elgamal_proof_program::proof_data::{
    BatchedRangeProofU64Data, CiphertextCommitmentEqualityProofData, PubkeyValidityProofData,
};

verus! {

#[verifier::external_type_specification]
#[verifier::external_body]
pub struct ExElGamalKeypair(ElGamalKeypair);

#[verifier::external_type_specification]
#[verifier::external_body]
pub struct ExElGamalCiphertext(ElGamalCiphertext);

#[verifier::external_type_specification]
#[verifier::external_body]
pub struct ExPedersenOpening(PedersenOpening);

#[verifier::external_type_specification]
#[verifier::external_body]
pub struct ExPedersenCommitment(PedersenCommitment);

/// The bytes that standard, padded base64 text `s` decodes to, if it is valid.
pub uninterp spec fn base64_decoded(s: Seq<char>) -> Option<Seq<u8>>;

/// The standard, padded base64 text of `b`.
pub uninterp spec fn base64_encoded(b: Seq<u8>) -> Seq<char>;

/// The 32-byte key that base58 text `s` spells, if it spells one.
pub uninterp spec fn base58_pubkey(s: Seq<char>) -> Option<Seq<u8>>;

/// SHA-256 of `data`.
pub uninterp spec fn sha256_digest(data: Seq<u8>) -> Seq<u8>;

/// The 32-byte encryption public key that a keypair derived from `seed` carries.
pub uninterp spec fn elgamal_pubkey_of_seed(seed: Seq<u8>) -> Seq<u8>;

/// Whether 64 bytes hold two valid compressed curve points (commitment, then handle).
pub uninterp spec fn elgamal_ciphertext_valid(bytes: Seq<u8>) -> bool;

/// Whether `signature` is a valid ed25519 signature of `message` under `pubkey`.
pub uninterp spec fn ed25519_valid(signature: Seq<u8>, pubkey: Seq<u8>, message: Seq<u8>) -> bool;

/// Relies on base64's `STANDARD.decode`: the bytes that `s` encodes, or an error text.
#[verifier::external_body]
pub(crate) fn decode_base64(s: &str) -> (r: Result<Vec<u8>, String>)
    ensures
        match r {
            Ok(b) => base64_decoded(s@) == Some(b@),
            Err(_) => base64_decoded(s@) is None,
        },
{
    STANDARD.decode(s).map_err(|e| e.to_string())
}

/// Relies on base64's `STANDARD.encode`: the padded base64 text of `b`.
#[verifier::external_body]
pub(crate) fn encode_base64(b: &[u8]) -> (r: String)
    ensures
        r@ == base64_encoded(b@),
{
    STANDARD.encode(b)
}

/// Relies on `Pubkey::from_str` (solana-pubkey): base58 text to a 32-byte key.
#[verifier::external_body]
pub(crate) fn parse_base58_pubkey(s: &str) -> (r: Result<[u8; 32], String>)
    ensures
        match r {
            Ok(k) => base58_pubkey(s@) == Some(k@),
            Err(_) => base58_pubkey(s@) is None,
        },
{
    <solana_sdk::pubkey::Pubkey as std::str::FromStr>::from_str(s).map(|k| k.to_bytes()).map_err(|e| e.to_string())
}

/// Relies on `hashv` (solana-sha256-hasher): SHA-256 over the two slices in turn,
/// which is SHA-256 of their concatenation.
#[verifier::external_body]
pub(crate) fn sha256_pair(first: &[u8; 64], second: &[u8; 32]) -> (r: [u8; 32])
    ensures
        r@ == sha256_digest(first@ + second@),
{
    solana_sdk::hash::hashv(&[first, second]).to_bytes()
}

/// Relies on `Signature::verify` (solana-signature): ed25519 verification of `message`.
#[verifier::external_body]
pub(crate) fn verify_ed25519(signature: &[u8; 64], pubkey: &[u8; 32], message: &[u8]) -> (r: bool)
    ensures
        r == ed25519_valid(signature@, pubkey@, message@),
{
    Signature::from(*signature).verify(pubkey, message)
}

/// Relies on `ElGamalKeypair::from_seed` (solana-zk-sdk), which accepts every seed of
/// 32 to 65535 bytes, and on the keypair's public key in its 32-byte compressed form.
#[verifier::external_body]
pub(crate) fn elgamal_keypair_from_seed(seed: &[u8; 32]) -> (r: Result<(ElGamalKeypair, [u8; 32]), String>)
    ensures
        r is Ok,
        r is Ok ==> r->Ok_0.1@ == elgamal_pubkey_of_seed(seed@),
{
    match <ElGamalKeypair as SeedDerivable>::from_seed(seed) {
        Ok(k) => {
            let pubkey: [u8; 32] = k.pubkey().into();
            Ok((k, pubkey))
        },
        Err(e) => Err(e.to_string()),
    }
}

/// Relies on `PubkeyValidityProofData::new` (solana-zk-sdk), which always succeeds,
/// and on bytemuck for its byte image.
#[verifier::external_body]
pub(crate) fn pubkey_validity_proof_bytes(keypair: &ElGamalKeypair) -> (r: Result<Vec<u8>, String>)
    ensures
        r is Ok,
{
    PubkeyValidityProofData::new(keypair).map(|d| bytemuck::bytes_of(&d).to_vec()).map_err(|e| e.to_string())
}

/// Relies on `PedersenOpening::new_rand` (solana-zk-sdk): a fresh random opening.
#[verifier::external_body]
pub(crate) fn random_opening() -> (r: PedersenOpening)
{
    PedersenOpening::new_rand()
}

/// Relies on `Pedersen::with` (solana-zk-sdk): the commitment to `amount` under `opening`.
#[verifier::external_body]
pub(crate) fn pedersen_commit(amount: u64, opening: &PedersenOpening) -> (r: PedersenCommitment)
{
    Pedersen::with(amount, opening)
}

/// Relies on `CiphertextCommitmentEqualityProofData::new` (solana-zk-sdk), which always
/// succeeds, and on bytemuck for its byte image.
#[verifier::external_body]
pub(crate) fn equality_proof_bytes(
    keypair: &ElGamalKeypair,
    ciphertext: &ElGamalCiphertext,
    commitment: &PedersenCommitment,
    opening: &PedersenOpening,
    amount: u64,
) -> (r: Result<Vec<u8>, String>)
    ensures
        r is Ok,
{
    CiphertextCommitmentEqualityProofData::new(keypair, ciphertext, commitment, opening, amount)
        .map(|d| bytemuck::bytes_of(&d).to_vec())
        .map_err(|e| e.to_string())
}

/// Relies on `BatchedRangeProofU64Data::new` (solana-zk-sdk), and on bytemuck for its
/// byte image. The commitments, amounts, bit lengths and openings pair up one to one.
#[verifier::external_body]
pub(crate) fn batched_range_proof_bytes(
    commitments: &Vec<PedersenCommitment>,
    amounts: &Vec<u64>,
    bit_lengths: &Vec<usize>,
    openings: &Vec<PedersenOpening>,
) -> (r: Result<Vec<u8>, String>)
    requires
        commitments@.len() == amounts@.len(),
        bit_lengths@.len() == amounts@.len(),
        openings@.len() == amounts@.len(),
        forall|i: int| 0 <= i < bit_lengths@.len() ==> bit_lengths@[i] == 64,
{
    BatchedRangeProofU64Data::new(commitments.iter().collect(), amounts.clone(), bit_lengths.clone(), openings.iter().collect())
        .map(|d| bytemuck::bytes_of(&d).to_vec())
        .map_err(|e| e.to_string())
}

/// Relies on `ElGamalCiphertext::from_bytes` (solana-zk-sdk): 64 bytes that hold two
/// valid curve points, or `None`.
#[verifier::external_body]
pub(crate) fn elgamal_ciphertext_from_bytes(bytes: &[u8]) -> (r: Option<ElGamalCiphertext>)
    ensures
        r is Some <==> (bytes@.len() == 64 && elgamal_ciphertext_valid(bytes@)),
{
    ElGamalCiphertext::from_bytes(bytes)
}

/// The number that bytes spell in little-endian order.
pub open spec fn le_value(b: Seq<u8>) -> nat
    decreases b.len(),
{
    if b.len() == 0 {
        0
    } else {
        b[0] as nat + 256 * le_value(b.drop_first())
    }
}

/// The order of the scalar group, `2^252 + 27742317777372353535851937790883648493`.
pub open spec fn scalar_group_order() -> nat {
    pow2(252) + 27742317777372353535851937790883648493nat
}

/// A canonical scalar encoding: 32 bytes, top bit clear, value below the group order.
pub open spec fn canonical_scalar_bytes(b: Seq<u8>) -> bool {
    b.len() == 32 && b[31] < 128 && le_value(b) < scalar_group_order()
}

/// Relies on `PedersenOpening::from_bytes` (solana-zk-sdk), which takes exactly 32 bytes
/// through curve25519-dalek's `Scalar::from_canonical_bytes`.
#[verifier::external_body]
pub(crate) fn pedersen_opening_from_bytes(bytes: &[u8]) -> (r: Option<PedersenOpening>)
    ensures
        r is Some <==> canonical_scalar_bytes(bytes@),
{
    PedersenOpening::from_bytes(bytes)
}

/// Relies on chrono's `Utc::now`: the current Unix time in seconds.
#[verifier::external_body]
pub(crate) fn unix_now() -> (r: i64)
{
    chrono::Utc::now().timestamp()
}

/// The value of a nonempty run of decimal digits.
pub open spec fn digits_value(d: Seq<char>) -> int
    decreases d.len(),
{
    if d.len() == 0 {
        0
    } else {
        10 * digits_value(d.drop_last()) + (d.last() as int - '0' as int)
    }
}

/// The unsigned 64-bit number that `s` spells: an optional `+` and then one or more
/// decimal digits, nothing else, with a value that fits.
pub open spec fn decimal_u64(s: Seq<char>) -> Option<u64> {
    let d = if s.len() > 0 && s[0] == '+' {
        s.drop_first()
    } else {
        s
    };
    if d.len() > 0 && (forall|i: int| 0 <= i < d.len() ==> '0' <= #[trigger] d[i] && d[i] <= '9')
        && digits_value(d) <= u64::MAX {
        Some(digits_value(d) as u64)
    } else {
        None
    }
}

/// Relies on `str::parse::<u64>`, which std documents as accepting an optional `+`
/// followed by digits only, and refusing values that overflow.
#[verifier::external_body]
pub(crate) fn parse_u64(s: &str) -> (r: Option<u64>)
    ensures
        r == decimal_u64(s@),
{
    s.parse::<u64>().ok()
}

} // verus!
