//! Clock, message ids and the hash from which stable ids are made.

use vstd::prelude::*;
use rand::RngCore;
use std::hash::{Hash, Hasher};
use std::time::{SystemTime, UNIX_EPOCH};
use crate::text::{hex16, hex_text, hex_u64};

verus! {

/// The value that the default hasher of the standard library gives for a
/// text.
pub uninterp spec fn text_hash(s: Seq<char>) -> u64;

/// `DefaultHasher::new`, fed the text through `str::hash`, then `finish`.
/// The hasher starts from fixed keys, so the value depends on the text alone;
/// the contract gives it the name [`text_hash`] and claims nothing else of it.
#[verifier::external_body]
fn hash_text(s: &str) -> (h: u64)
    ensures
        h == text_hash(s@),
{
    let mut hasher = std::collections::hash_map::DefaultHasher::new();
    s.hash(&mut hasher);
    hasher.finish()
}

/// `hex::encode`: two lowercase hexadecimal digits for each byte, the high
/// half of the byte first.
#[verifier::external_body]
fn hex_encode(bytes: &Vec<u8>) -> (r: String)
    ensures
        r@ == hex_text(bytes@),
{
    hex::encode(bytes)
}

/// `RngCore::fill_bytes` on `rand::thread_rng()`, over sixteen bytes. Nothing
/// is claimed of the bytes but their number.
#[verifier::external_body]
pub(crate) fn random_bytes() -> (b: Vec<u8>)
    ensures
        b.len() == 16,
{
    let mut b = [0u8; 16];
    rand::thread_rng().fill_bytes(&mut b);
    b.to_vec()
}

/// `SystemTime::now`, as whole seconds since the Unix epoch; `None` where the
/// clock stands before the epoch. Nothing is claimed of the value.
#[verifier::external_body]
fn clock_seconds() -> (elapsed: Option<u64>) {
    SystemTime::now().duration_since(UNIX_EPOCH).ok().map(|d| d.as_secs())
}

/// The timestamp for a clock reading: the seconds where they fit, zero where
/// the clock stands before the epoch.
pub open spec fn timestamp_of(elapsed: Option<u64>) -> i64 {
    match elapsed {
        Some(s) => if s <= i64::MAX as u64 {
            s as i64
        } else {
            (s as int - 0x1_0000_0000_0000_0000) as i64
        },
        None => 0,
    }
}

/// The timestamp for a clock reading: see [`timestamp_of`].
pub fn seconds_from(elapsed: Option<u64>) -> (t: i64)
    ensures
        t == timestamp_of(elapsed),
{
    match elapsed {
        Some(s) => {
            assert(s > i64::MAX as u64 ==> (s as i64) as int == s as int - 0x1_0000_0000_0000_0000)
                by (bit_vector);
            #[verifier::truncate]
            (s as i64)
        },
        None => 0,
    }
}

/// Seconds since the Unix epoch by the system clock.
pub fn now_seconds() -> (t: i64)
    ensures
        exists|elapsed: Option<u64>| t == timestamp_of(elapsed),
{
    let elapsed = clock_seconds();
    seconds_from(elapsed)
}

/// The id made of a prefix and id bytes: the prefix, an underscore, and the
/// bytes in lowercase hexadecimal.
pub open spec fn id_text(prefix: Seq<char>, bytes: Seq<u8>) -> Seq<char> {
    prefix + seq!['_'] + hex_text(bytes)
}

/// The id for a prefix and id bytes: see [`id_text`].
pub fn id_from_bytes(prefix: &str, bytes: &Vec<u8>) -> (id: String)
    ensures
        id@ == id_text(prefix@, bytes@),
{
    proof {
        reveal_strlit("_");
    }
    let mut id = prefix.to_owned();
    id.append("_");
    assert("_"@ =~= seq!['_']);
    let digits = hex_encode(bytes);
    id.append(digits.as_str());
    id
}

/// A fresh id: the prefix, an underscore, and sixteen random bytes in
/// lowercase hexadecimal.
pub fn generate_id(prefix: &str) -> (id: String)
    ensures
        exists|bytes: Seq<u8>| bytes.len() == 16 && id@ == id_text(prefix@, bytes),
{
    let bytes = random_bytes();
    id_from_bytes(prefix, &bytes)
}

/// A hash of the text that is the same in every run, written as sixteen
/// lowercase hexadecimal digits.
pub fn stable_hash(s: &str) -> (r: String)
    ensures
        r@ == hex16(text_hash(s@)),
{
    hex_u64(hash_text(s))
}

} // verus!
