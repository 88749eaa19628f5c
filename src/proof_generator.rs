use vstd::prelude::*;

use solana_zk_sdk::encryption::elgamal::{ElGamalCiphertext, ElGamalKeypair};
use solana_zk_sdk::encryption::pedersen::{PedersenCommitment, PedersenOpening};

use crate::bindings::{
    base58_pubkey, base64_decoded, batched_range_proof_bytes, canonical_scalar_bytes, decode_base64, ed25519_valid,
    elgamal_ciphertext_from_bytes, elgamal_ciphertext_valid, elgamal_keypair_from_seed, elgamal_pubkey_of_seed,
    equality_proof_bytes, parse_base58_pubkey, pedersen_commit, pedersen_opening_from_bytes,
    pubkey_validity_proof_bytes, random_opening, sha256_digest, sha256_pair, verify_ed25519,
};
use crate::error::BackendError;

verus! {

/// Bit length proven for each amount of a range proof.
pub const RANGE_BIT_LENGTH: usize = 64;

/// The ASCII bytes of `SVS_PROOF_REQUEST`, which open every signed request.
pub open spec fn request_prefix() -> Seq<u8> {
    seq![83u8, 86, 83, 95, 80, 82, 79, 79, 70, 95, 82, 69, 81, 85, 69, 83, 84]
}

/// The ASCII bytes of `range`.
pub open spec fn range_suffix() -> Seq<u8> {
    seq![114u8, 97, 110, 103, 101]
}

/// The eight little-endian bytes of `t` in two's complement.
pub open spec fn i64_le_bytes(t: i64) -> Seq<u8> {
    Seq::new(8, |i: int| ((t as u64) >> ((8 * i) as u64)) as u8)
}

/// The message a wallet signs to request a proof about `token_account`.
pub open spec fn request_message(timestamp: i64, token_account: Seq<u8>) -> Seq<u8> {
    request_prefix() + i64_le_bytes(timestamp) + token_account
}

/// The message a wallet signs to request a range proof.
pub open spec fn range_request_message(timestamp: i64) -> Seq<u8> {
    request_prefix() + i64_le_bytes(timestamp) + range_suffix()
}

/// Batch sizes a range proof accepts.
pub open spec fn valid_batch_size(n: int) -> bool {
    n == 1 || n == 2 || n == 4 || n == 8
}

/// The 64 bytes that base64 text `s` decodes to, if it decodes to exactly 64.
pub open spec fn signature_from_text(s: Seq<char>) -> Option<Seq<u8>> {
    match base64_decoded(s) {
        Some(b) => if b.len() == 64 {
            Some(b)
        } else {
            None
        },
        None => None,
    }
}

/// Base64 text of 64 bytes that hold a valid encryption ciphertext.
pub open spec fn ciphertext_text_valid(s: Seq<char>) -> bool {
    match base64_decoded(s) {
        Some(b) => b.len() == 64 && elgamal_ciphertext_valid(b),
        None => false,
    }
}

/// Base64 text of a canonical 32-byte scalar, the form of a commitment opening.
pub open spec fn opening_text_valid(s: Seq<char>) -> bool {
    match base64_decoded(s) {
        Some(b) => canonical_scalar_bytes(b),
        None => false,
    }
}

/// The encryption public key derived from a signature and a token account.
pub open spec fn derived_elgamal_pubkey(signature: Seq<u8>, token_account: Seq<u8>) -> Seq<u8> {
    elgamal_pubkey_of_seed(sha256_digest(signature + token_account))
}

/// Stateless generator of the proofs that confidential operations consume.
pub struct ProofGenerator;

/// An encryption keypair together with its 32-byte public key.
pub struct DerivedElGamalKeypair {
    pub keypair: ElGamalKeypair,
    pub pubkey: [u8; 32],
}

fn push_bytes(out: &mut Vec<u8>, bytes: &[u8])
    ensures
        final(out)@ == old(out)@ + bytes@,
{
    let mut i: usize = 0;
    while i < bytes.len()
        invariant
            i <= bytes@.len(),
            out@ == old(out)@ + bytes@.subrange(0, i as int),
        decreases bytes@.len() - i,
    {
        out.push(bytes[i]);
        i = i + 1;
    }
    assert(bytes@.subrange(0, bytes@.len() as int) =~= bytes@);
}

fn push_i64_le(out: &mut Vec<u8>, t: i64)
    ensures
        final(out)@ == old(out)@ + i64_le_bytes(t),
{
    let u = t as u64;
    let mut i: u64 = 0;
    while i < 8
        invariant
            i <= 8,
            u == t as u64,
            out@ == old(out)@ + i64_le_bytes(t).subrange(0, i as int),
        decreases 8 - i,
    {
        out.push((u >> (8 * i)) as u8);
        i = i + 1;
    }
    assert(i64_le_bytes(t).subrange(0, 8) =~= i64_le_bytes(t));
}

fn request_prefix_vec() -> (r: Vec<u8>)
    ensures
        r@ == request_prefix(),
{
    let r = vec![83u8, 86, 83, 95, 80, 82, 79, 79, 70, 95, 82, 69, 81, 85, 69, 83, 84];
    assert(r@ =~= request_prefix());
    r
}

/// Copies exactly 64 bytes into an array.
fn to_array_64(b: &Vec<u8>) -> (r: [u8; 64])
    requires
        b@.len() == 64,
    ensures
        r@ == b@,
{
    let mut a = [0u8; 64];
    let mut i: usize = 0;
    while i < 64
        invariant
            i <= 64,
            b@.len() == 64,
            forall|j: int| 0 <= j < i ==> a@[j] == b@[j],
        decreases 64 - i,
    {
        a[i] = b[i];
        i = i + 1;
    }
    assert(a@ =~= b@);
    a
}

impl ProofGenerator {
    /// Derives the holder's encryption keypair from a wallet signature and the token
    /// account; the same inputs always give the same keypair and public key.
    pub fn derive_elgamal_keypair(elgamal_signature: &[u8; 64], token_account: &[u8; 32]) -> (r: Result<DerivedElGamalKeypair, BackendError>)
        ensures
            r is Ok,
            r is Ok ==> r->Ok_0.pubkey@ == derived_elgamal_pubkey(elgamal_signature@, token_account@),
    {
        let seed = Self::derive_elgamal_seed(elgamal_signature, token_account);
        match elgamal_keypair_from_seed(&seed) {
            Ok((keypair, pubkey)) => Ok(DerivedElGamalKeypair { keypair, pubkey }),
            Err(m) => Err(BackendError::ProofGeneration(m)),
        }
    }

    /// The key-derivation seed: SHA-256 of the signature followed by the token account.
    pub fn derive_elgamal_seed(signature: &[u8; 64], token_account: &[u8; 32]) -> (r: [u8; 32])
        ensures
            r@ == sha256_digest(signature@ + token_account@),
    {
        sha256_pair(signature, token_account)
    }

    /// Proves that the keypair's public key is well formed; returns the proof bytes and
    /// the 32-byte public key.
    pub fn generate_pubkey_validity_proof(elgamal_keypair: &DerivedElGamalKeypair) -> (r: Result<(Vec<u8>, [u8; 32]), BackendError>)
        ensures
            r is Ok,
            r is Ok ==> r->Ok_0.1 == elgamal_keypair.pubkey,
    {
        let proof = match pubkey_validity_proof_bytes(&elgamal_keypair.keypair) {
            Ok(p) => p,
            Err(m) => return Err(BackendError::ProofGeneration(m)),
        };
        Ok((proof, elgamal_keypair.pubkey))
    }

    /// Proves that `ciphertext` encrypts `amount`, against a fresh random commitment.
    pub fn generate_equality_proof(
        elgamal_keypair: &DerivedElGamalKeypair,
        ciphertext: &ElGamalCiphertext,
        amount: u64,
    ) -> (r: Result<Vec<u8>, BackendError>)
        ensures
            r is Ok,
    {
        let opening = random_opening();
        let commitment = pedersen_commit(amount, &opening);
        match equality_proof_bytes(&elgamal_keypair.keypair, ciphertext, &commitment, &opening, amount) {
            Ok(p) => Ok(p),
            Err(m) => Err(BackendError::ProofGeneration(m)),
        }
    }

    /// Proves that each amount, committed under its opening, fits in 64 bits. Amounts and
    /// openings must pair up one to one, in a batch of 1, 2, 4 or 8. The outside proof
    /// bounds the sum of the bit lengths by 64, so it refuses, with `ProofGeneration`,
    /// any batch of more than one 64-bit amount.
    pub fn generate_range_proof(amounts: &Vec<u64>, openings: &Vec<PedersenOpening>) -> (r: Result<Vec<u8>, BackendError>)
        ensures
            amounts@.len() != openings@.len() ==> r is Err && r->Err_0 is BadRequest,
            amounts@.len() == openings@.len() && !valid_batch_size(amounts@.len() as int) ==> r is Err
                && r->Err_0 is BadRequest,
            amounts@.len() == openings@.len() && valid_batch_size(amounts@.len() as int) && r is Err
                ==> r->Err_0 is ProofGeneration,
    {
        if amounts.len() != openings.len() {
            return Err(BackendError::BadRequest("Amounts and openings must have same length".to_string()));
        }
        let batch_size = amounts.len();
        if !(batch_size == 1 || batch_size == 2 || batch_size == 4 || batch_size == 8) {
            return Err(BackendError::BadRequest("Batch size must be 1, 2, 4, or 8".to_string()));
        }
        let mut commitments: Vec<PedersenCommitment> = Vec::new();
        let mut bit_lengths: Vec<usize> = Vec::new();
        let mut i: usize = 0;
        while i < batch_size
            invariant
                i <= batch_size,
                batch_size == amounts@.len(),
                batch_size == openings@.len(),
                commitments@.len() == i,
                bit_lengths@.len() == i,
                forall|j: int| 0 <= j < i ==> bit_lengths@[j] == RANGE_BIT_LENGTH,
            decreases batch_size - i,
        {
            commitments.push(pedersen_commit(amounts[i], &openings[i]));
            bit_lengths.push(RANGE_BIT_LENGTH);
            i = i + 1;
        }
        assert(bit_lengths@ =~= Seq::new(batch_size as nat, |j: int| RANGE_BIT_LENGTH));
        match batched_range_proof_bytes(&commitments, amounts, &bit_lengths, openings) {
            Ok(p) => Ok(p),
            Err(m) => Err(BackendError::ProofGeneration(m)),
        }
    }

    /// Checks the wallet's signature over the request message for `token_account`.
    pub fn verify_request_signature(
        wallet_pubkey: &[u8; 32],
        timestamp: i64,
        token_account: &[u8; 32],
        signature: &[u8; 64],
    ) -> (r: Result<(), BackendError>)
        ensures
            r is Ok <==> ed25519_valid(signature@, wallet_pubkey@, request_message(timestamp, token_account@)),
            r is Err ==> r->Err_0 is InvalidSignature,
    {
        let message = Self::construct_request_message(timestamp, token_account);
        if !verify_ed25519(signature, wallet_pubkey, message.as_slice()) {
            return Err(BackendError::InvalidSignature("Request signature verification failed".to_string()));
        }
        Ok(())
    }

    /// Checks the wallet's signature over the range request message.
    pub fn verify_range_request_signature(wallet_pubkey: &[u8; 32], timestamp: i64, signature: &[u8; 64]) -> (r: Result<(), BackendError>)
        ensures
            r is Ok <==> ed25519_valid(signature@, wallet_pubkey@, range_request_message(timestamp)),
            r is Err ==> r->Err_0 is InvalidSignature,
    {
        let message = Self::construct_range_request_message(timestamp);
        if !verify_ed25519(signature, wallet_pubkey, message.as_slice()) {
            return Err(BackendError::InvalidSignature("Range request signature verification failed".to_string()));
        }
        Ok(())
    }

    /// `SVS_PROOF_REQUEST`, the timestamp in little-endian, then the token account.
    pub fn construct_request_message(timestamp: i64, token_account: &[u8; 32]) -> (r: Vec<u8>)
        ensures
            r@ == request_message(timestamp, token_account@),
    {
        let mut message = request_prefix_vec();
        push_i64_le(&mut message, timestamp);
        push_bytes(&mut message, token_account.as_slice());
        message
    }

    /// `SVS_PROOF_REQUEST`, the timestamp in little-endian, then `range`.
    pub fn construct_range_request_message(timestamp: i64) -> (r: Vec<u8>)
        ensures
            r@ == range_request_message(timestamp),
    {
        let mut message = request_prefix_vec();
        push_i64_le(&mut message, timestamp);
        let suffix = vec![114u8, 97, 110, 103, 101];
        assert(suffix@ =~= range_suffix());
        push_bytes(&mut message, suffix.as_slice());
        message
    }

    /// Parses a base58 public key.
    pub fn parse_pubkey(s: &str) -> (r: Result<[u8; 32], BackendError>)
        ensures
            match r {
                Ok(k) => base58_pubkey(s@) == Some(k@),
                Err(e) => base58_pubkey(s@) is None && e is InvalidPubkey,
            },
    {
        match parse_base58_pubkey(s) {
            Ok(k) => Ok(k),
            Err(m) => Err(BackendError::InvalidPubkey(m)),
        }
    }

    /// Parses a base64 signature of exactly 64 bytes.
    pub fn parse_signature(s: &str) -> (r: Result<[u8; 64], BackendError>)
        ensures
            match r {
                Ok(sig) => signature_from_text(s@) == Some(sig@),
                Err(e) => signature_from_text(s@) is None && e is InvalidSignature,
            },
    {
        let bytes = match decode_base64(s) {
            Ok(b) => b,
            Err(m) => return Err(BackendError::InvalidSignature(m)),
        };
        if bytes.len() != 64 {
            return Err(BackendError::InvalidSignature("Signature must be 64 bytes".to_string()));
        }
        Ok(to_array_64(&bytes))
    }

    /// Parses a base64 ciphertext of exactly 64 bytes holding two valid curve points.
    pub fn parse_ciphertext(s: &str) -> (r: Result<ElGamalCiphertext, BackendError>)
        ensures
            r is Ok <==> ciphertext_text_valid(s@),
            r is Err ==> r->Err_0 is BadRequest,
    {
        let bytes = match decode_base64(s) {
            Ok(b) => b,
            Err(m) => return Err(BackendError::BadRequest(m)),
        };
        if bytes.len() != 64 {
            return Err(BackendError::BadRequest("Ciphertext must be 64 bytes".to_string()));
        }
        match elgamal_ciphertext_from_bytes(bytes.as_slice()) {
            Some(c) => Ok(c),
            None => Err(BackendError::BadRequest("Invalid ciphertext".to_string())),
        }
    }

    /// Parses a base64 commitment opening of exactly 32 bytes holding a canonical scalar.
    pub fn parse_opening(s: &str) -> (r: Result<PedersenOpening, BackendError>)
        ensures
            r is Ok <==> opening_text_valid(s@),
            r is Err ==> r->Err_0 is BadRequest,
    {
        let bytes = match decode_base64(s) {
            Ok(b) => b,
            Err(m) => return Err(BackendError::BadRequest(m)),
        };
        if bytes.len() != 32 {
            return Err(BackendError::BadRequest("Opening must be 32 bytes".to_string()));
        }
        match pedersen_opening_from_bytes(bytes.as_slice()) {
            Some(o) => Ok(o),
            None => Err(BackendError::BadRequest("Invalid Pedersen opening bytes".to_string())),
        }
    }
}

} // verus!
