//! XXH3: 64- and 128-bit hashes computed by the `xxhash-rust` crate, with
//! buffering incremental hashers over them.
//!
//! The values are those of the stable XXH3 (xxHash 0.8 onwards) and differ
//! from the ones of the pre-release XXH3 of earlier xxHash versions: the
//! XXH3 64-bit hash of `hello` is 10760762337991515389 here, where the
//! pre-release gives 9756980668191802116.

use vstd::prelude::*;

use crate::hasher::{BufHasher, FastHash, FastHasher, HasherExt};

verus! {

/// The unseeded XXH3 64-bit digest of a byte string.
pub uninterp spec fn xxh3_64_of(bytes: Seq<u8>) -> u64;

/// The seeded XXH3 64-bit digest of a byte string.
pub uninterp spec fn xxh3_64_seeded_of(bytes: Seq<u8>, seed: u64) -> u64;

/// The unseeded XXH3 128-bit digest of a byte string.
pub uninterp spec fn xxh3_128_of(bytes: Seq<u8>) -> u128;

/// The seeded XXH3 128-bit digest of a byte string.
pub uninterp spec fn xxh3_128_seeded_of(bytes: Seq<u8>, seed: u64) -> u128;

/// Relies on `xxhash_rust::xxh3::xxh3_64`, a function of the bytes alone.
#[verifier::external_body]
fn xxh3_64_one_shot(bytes: &[u8]) -> (r: u64)
    ensures
        r == xxh3_64_of(bytes@),
{
    xxhash_rust::xxh3::xxh3_64(bytes)
}

/// Relies on `xxhash_rust::xxh3::xxh3_64_with_seed`, a function of the bytes
/// and seed alone.
#[verifier::external_body]
fn xxh3_64_seeded(bytes: &[u8], seed: u64) -> (r: u64)
    ensures
        r == xxh3_64_seeded_of(bytes@, seed),
{
    xxhash_rust::xxh3::xxh3_64_with_seed(bytes, seed)
}

/// Relies on `xxhash_rust::xxh3::xxh3_128`, a function of the bytes alone.
#[verifier::external_body]
fn xxh3_128_one_shot(bytes: &[u8]) -> (r: u128)
    ensures
        r == xxh3_128_of(bytes@),
{
    xxhash_rust::xxh3::xxh3_128(bytes)
}

/// Relies on `xxhash_rust::xxh3::xxh3_128_with_seed`, a function of the bytes
/// and seed alone.
#[verifier::external_body]
fn xxh3_128_seeded(bytes: &[u8], seed: u64) -> (r: u128)
    ensures
        r == xxh3_128_seeded_of(bytes@, seed),
{
    xxhash_rust::xxh3::xxh3_128_with_seed(bytes, seed)
}

/// XXH3 64-bit hash functions.
#[derive(Clone, Copy)]
pub struct Hash64;

impl FastHash for Hash64 {
    type Hash = u64;

    type Seed = u64;

    open spec fn hash_of(bytes: Seq<u8>, seed: Option<u64>) -> u64 {
        match seed {
            Some(s) => xxh3_64_seeded_of(bytes, s),
            None => xxh3_64_of(bytes),
        }
    }

    open spec fn narrow_of(h: u64) -> u64 {
        h
    }

    fn hash(bytes: &[u8]) -> (r: u64) {
        xxh3_64_one_shot(bytes)
    }

    fn hash_with_seed(bytes: &[u8], seed: u64) -> (r: u64) {
        xxh3_64_seeded(bytes, seed)
    }

    fn narrow(h: u64) -> (r: u64) {
        h
    }
}

/// XXH3 128-bit hash functions. `finish` reports the low 64 bits.
#[derive(Clone, Copy)]
pub struct Hash128;

impl FastHash for Hash128 {
    type Hash = u128;

    type Seed = u64;

    open spec fn hash_of(bytes: Seq<u8>, seed: Option<u64>) -> u128 {
        match seed {
            Some(s) => xxh3_128_seeded_of(bytes, s),
            None => xxh3_128_of(bytes),
        }
    }

    open spec fn narrow_of(h: u128) -> u64 {
        h as u64
    }

    fn hash(bytes: &[u8]) -> (r: u128) {
        xxh3_128_one_shot(bytes)
    }

    fn hash_with_seed(bytes: &[u8], seed: u64) -> (r: u128) {
        xxh3_128_seeded(bytes, seed)
    }

    fn narrow(h: u128) -> (r: u64) {
        h as u64
    }
}

/// Incremental XXH3 64-bit: buffers what is written, hashes it on `finish`.
pub type Hasher64 = BufHasher<Hash64>;

/// Incremental XXH3 128-bit: buffers what is written, hashes it on `finish`.
pub type Hasher128 = BufHasher<Hash128>;

impl HasherExt for BufHasher<Hash128> {
    open spec fn digest_ext_of(b: Option<u64>, bytes: Seq<u8>) -> u128 {
        Hash128::hash_of(bytes, b)
    }

    fn finish_ext(&self) -> (r: u128) {
        self.digest()
    }
}

/// XXH3 64-bit hash of a byte array.
pub fn hash64(v: &[u8]) -> (r: u64)
    ensures
        r == xxh3_64_of(v@),
{
    Hash64::hash(v)
}

/// XXH3 64-bit hash of a byte array, with a 64-bit seed hashed in.
pub fn hash64_with_seed(v: &[u8], seed: u64) -> (r: u64)
    ensures
        r == xxh3_64_seeded_of(v@, seed),
{
    Hash64::hash_with_seed(v, seed)
}

/// XXH3 128-bit hash of a byte array.
pub fn hash128(v: &[u8]) -> (r: u128)
    ensures
        r == xxh3_128_of(v@),
{
    Hash128::hash(v)
}

/// XXH3 128-bit hash of a byte array, with a 64-bit seed hashed in.
pub fn hash128_with_seed(v: &[u8], seed: u64) -> (r: u128)
    ensures
        r == xxh3_128_seeded_of(v@, seed),
{
    Hash128::hash_with_seed(v, seed)
}

} // verus!
