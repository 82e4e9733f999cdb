//! Integrity verification of downloaded bytes.
//!
//! The digest of the fetched archive is computed with SHA-256, rendered as
//! lowercase hex, and compared to the expected value from the download
//! descriptor.  A missing expected value never passes silently: the caller
//! is told, in the result, that verification was skipped.

use vstd::prelude::*;
use sha2::Digest;

verus! {

/// The SHA-256 digest of a byte sequence.
pub uninterp spec fn sha256_of(bytes: Seq<u8>) -> Seq<u8>;

/// The lowercase hex character for a value below 16.
pub open spec fn hex_digit(d: nat) -> char {
    if d < 10 {
        crate::text::digit_char(d)
    } else if d == 10 {
        'a'
    } else if d == 11 {
        'b'
    } else if d == 12 {
        'c'
    } else if d == 13 {
        'd'
    } else if d == 14 {
        'e'
    } else {
        'f'
    }
}

/// Lowercase hex rendering of a byte sequence: for each byte the high
/// nibble's digit, then the low nibble's.
pub open spec fn hex_of(bytes: Seq<u8>) -> Seq<char>
    decreases bytes.len(),
{
    if bytes.len() == 0 {
        Seq::<char>::empty()
    } else {
        hex_of(bytes.drop_last()) + seq![
            hex_digit((bytes.last() / 16) as nat),
            hex_digit((bytes.last() % 16) as nat),
        ]
    }
}

/// The hex form of the SHA-256 digest of `bytes`.
pub open spec fn hex_digest_of(bytes: Seq<u8>) -> Seq<char> {
    hex_of(sha256_of(bytes))
}

/// Relies on sha2's `Sha256`: the digest is 32 bytes and depends on the
/// hashed bytes alone.
#[verifier::external_body]
fn sha256_digest(data: &Vec<u8>) -> (r: Vec<u8>)
    ensures
        r@ == sha256_of(data@),
        r@.len() == 32,
{
    let mut hasher = sha2::Sha256::new();
    hasher.update(data);
    hasher.finalize().to_vec()
}

/// Relies on hex's `encode`: each byte becomes its high nibble's lowercase
/// hex digit followed by its low nibble's.
#[verifier::external_body]
fn hex_encode(data: &Vec<u8>) -> (r: String)
    ensures
        r@ == hex_of(data@),
{
    hex::encode(data)
}

/// How a download's integrity was established.
#[derive(Clone, Copy, Debug, PartialEq, Eq, Structural)]
pub enum VerificationOutcome {
    /// The digest was present and matched.
    Verified,
    /// No expected digest was available; the check was skipped, and the
    /// caller must report that.
    Skipped,
}

/// Compares the digest of `content` to the expected lowercase hex digest.
///
/// Succeeds exactly when the rendered digest equals `expected`; on a
/// mismatch both values are surfaced and the caller must not install.
pub fn check_hash(content: &Vec<u8>, expected: &String) -> (r: Result<
    (),
    crate::BootstrapError,
>)
    ensures
        r is Ok <==> hex_digest_of(content@) == expected@,
        r is Err ==> (r->Err_0 matches crate::BootstrapError::IntegrityMismatch {
            expected: e,
            actual: a,
        } && e@ == expected@ && a@ == hex_digest_of(content@)),
{
    let digest = sha256_digest(content);
    let actual = hex_encode(&digest);
    if actual == *expected {
        Ok(())
    } else {
        Err(crate::BootstrapError::IntegrityMismatch { expected: expected.clone(), actual })
    }
}

/// Verifies `content` against an optional expected digest.
///
/// With a digest present this is `check_hash`; with none, installation may
/// proceed but the outcome says the check was skipped, never that it
/// passed.
pub fn verify_download(content: &Vec<u8>, expected: &Option<String>) -> (r: Result<
    VerificationOutcome,
    crate::BootstrapError,
>)
    ensures
        r == Ok::<_, crate::BootstrapError>(VerificationOutcome::Verified) <==> (expected matches
            Some(e) && hex_digest_of(content@) == e@),
        r == Ok::<_, crate::BootstrapError>(VerificationOutcome::Skipped) <==> expected is None,
        r is Err ==> (expected matches Some(e) && r->Err_0 matches
            crate::BootstrapError::IntegrityMismatch {
            expected: ee,
            actual: a,
        } && ee@ == e@ && a@ == hex_digest_of(content@)),
{
    match expected {
        Some(e) => match check_hash(content, e) {
            Ok(()) => Ok(VerificationOutcome::Verified),
            Err(err) => Err(err),
        },
        None => Ok(VerificationOutcome::Skipped),
    }
}

} // verus!
