use vstd::prelude::*;
use crate::model::{TransparencyLog, TransparencyLogError};

verus! {

/// The SHA-256 digest of a byte sequence.
pub uninterp spec fn sha256_of(data: Seq<u8>) -> Seq<u8>;

/// The lowercase hexadecimal digit for a value below 16.
pub open spec fn hex_digit(n: u8) -> char {
    seq!['0', '1', '2', '3', '4', '5', '6', '7', '8', '9', 'a', 'b', 'c', 'd', 'e', 'f'][n as int]
}

/// Lowercase hexadecimal text of a byte sequence, high nibble first.
pub open spec fn hex_of(data: Seq<u8>) -> Seq<char>
    decreases data.len(),
{
    if data.len() == 0 {
        Seq::empty()
    } else {
        let b = data.last();
        hex_of(data.drop_last()) + seq![hex_digit(b / 16), hex_digit(b % 16)]
    }
}

/// The hash that the transparency log records for an artifact: SHA-256 over
/// the whole blob, as lowercase hex.
pub open spec fn artifact_hash_of(data: Seq<u8>) -> Seq<char> {
    hex_of(sha256_of(data))
}

/// Relies on hex::encode: two lowercase hex digits per byte, high nibble
/// first.
#[verifier::external_body]
fn hex_encode(data: &[u8]) -> (r: String)
    ensures
        r@ == hex_of(data@),
{
    hex::encode(data)
}

/// Relies on sha2::Sha256::digest: the 32-byte SHA-256 digest of its input.
#[verifier::external_body]
fn sha256_digest(data: &[u8]) -> (r: Vec<u8>)
    ensures
        r@ == sha256_of(data@),
        r@.len() == 32,
{
    <sha2::Sha256 as sha2::Digest>::digest(data).to_vec()
}

/// Hash of an artifact's bytes in the form the transparency log records.
pub fn compute_artifact_hash(data: &[u8]) -> (r: String)
    ensures
        r@ == artifact_hash_of(data@),
{
    let digest = sha256_digest(data);
    hex_encode(digest.as_slice())
}

/// The outcome of checking bytes whose hash is `computed` against a record.
pub open spec fn hash_check(entry: TransparencyLog, computed: String) -> Result<(), TransparencyLogError> {
    if entry.artifact_hash@ == computed@ {
        Ok(())
    } else {
        Err(
            TransparencyLogError::InvalidHash {
                id: entry.package_specific_artifact_id,
                invalid_hash: computed,
                actual_hash: entry.artifact_hash,
            },
        )
    }
}

/// Compares a computed hash with the one a log record holds.
pub fn check_artifact_hash(entry: &TransparencyLog, computed: String) -> (r: Result<(), TransparencyLogError>)
    ensures
        r == hash_check(*entry, computed),
{
    if entry.artifact_hash == computed {
        Ok(())
    } else {
        Err(
            TransparencyLogError::InvalidHash {
                id: entry.package_specific_artifact_id.clone(),
                invalid_hash: computed,
                actual_hash: entry.artifact_hash.clone(),
            },
        )
    }
}

} // verus!
