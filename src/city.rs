//! CityHash: 32-, 64- and 128-bit hashes of byte strings, computed by
//! Google's CityHash v1.1 through the `cityhash-sys` crate.
//!
//! The 64-bit values are those of CityHash v1.1 and differ from the ones of
//! earlier CityHash releases: the CityHash64 of `hello` is
//! 13009744463427800296 here, where a pre-1.1 build gives
//! 2578220239953316063.
//!
//! 128-bit digests and seeds are joined from their two 64-bit halves with
//! the low half in the low 64 bits; `cityhash-sys` does so on little-endian
//! targets only (it swaps the halves on big-endian ones), and this module
//! assumes a little-endian target.

use vstd::prelude::*;

use crate::hasher::{BufHasher, FastHash, HasherExt, NoSeed};

verus! {

/// The CityHash32 digest of a byte string.
pub uninterp spec fn city32_of(bytes: Seq<u8>) -> u32;

/// The CityHash64 digest of a byte string.
pub uninterp spec fn city64_of(bytes: Seq<u8>) -> u64;

/// The CityHash64WithSeed digest of a byte string.
pub uninterp spec fn city64_seeded_of(bytes: Seq<u8>, seed: u64) -> u64;

/// The CityHash64WithSeeds digest of a byte string.
pub uninterp spec fn city64_seeds_of(bytes: Seq<u8>, seed0: u64, seed1: u64) -> u64;

/// The CityHash128 digest of a byte string, low half in the low 64 bits.
pub uninterp spec fn city128_of(bytes: Seq<u8>) -> u128;

/// The CityHash128WithSeed digest of a byte string, the seed's and the
/// result's low halves in the low 64 bits.
pub uninterp spec fn city128_seeded_of(bytes: Seq<u8>, seed: u128) -> u128;

/// Relies on `cityhash_sys::city_hash_32` (CityHash32), a function of the bytes alone.
#[verifier::external_body]
fn city_hash_32(bytes: &[u8]) -> (r: u32)
    ensures
        r == city32_of(bytes@),
{
    cityhash_sys::city_hash_32(bytes)
}

/// Relies on `cityhash_sys::city_hash_64` (CityHash64), a function of the bytes alone.
#[verifier::external_body]
fn city_hash_64(bytes: &[u8]) -> (r: u64)
    ensures
        r == city64_of(bytes@),
{
    cityhash_sys::city_hash_64(bytes)
}

/// Relies on `cityhash_sys::city_hash_64_with_seed` (CityHash64WithSeed), a
/// function of the bytes and the seed alone.
#[verifier::external_body]
fn city_hash_64_with_seed(bytes: &[u8], seed: u64) -> (r: u64)
    ensures
        r == city64_seeded_of(bytes@, seed),
{
    cityhash_sys::city_hash_64_with_seed(bytes, seed)
}

/// Relies on `cityhash_sys::city_hash_64_with_seeds` (CityHash64WithSeeds), a
/// function of the bytes and the two seeds alone.
#[verifier::external_body]
fn city_hash_64_with_seeds(bytes: &[u8], seed0: u64, seed1: u64) -> (r: u64)
    ensures
        r == city64_seeds_of(bytes@, seed0, seed1),
{
    cityhash_sys::city_hash_64_with_seeds(bytes, seed0, seed1)
}

/// Relies on `cityhash_sys::city_hash_128` (CityHash128), a function of the
/// bytes alone.
#[verifier::external_body]
fn city_hash_128(bytes: &[u8]) -> (r: u128)
    ensures
        r == city128_of(bytes@),
{
    cityhash_sys::city_hash_128(bytes)
}

/// Relies on `cityhash_sys::city_hash_128_with_seed` (CityHash128WithSeed), a
/// function of the bytes and the seed alone.
#[verifier::external_body]
fn city_hash_128_with_seed(bytes: &[u8], seed: u128) -> (r: u128)
    ensures
        r == city128_seeded_of(bytes@, seed),
{
    cityhash_sys::city_hash_128_with_seed(bytes, seed)
}

/// CityHash 32-bit hash functions. Google's CityHash offers no seeded
/// CityHash32, and `cityhash-sys` none either, so a seeded 32-bit CityHash
/// is not available here: the seed type is `NoSeed` and the seeded entry
/// point hashes as the unseeded one.
#[derive(Clone, Copy)]
pub struct Hash32;

impl FastHash for Hash32 {
    type Hash = u32;

    type Seed = NoSeed;

    open spec fn hash_of(bytes: Seq<u8>, seed: Option<NoSeed>) -> u32 {
        city32_of(bytes)
    }

    open spec fn narrow_of(h: u32) -> u64 {
        h as u64
    }

    fn hash(bytes: &[u8]) -> (r: u32) {
        city_hash_32(bytes)
    }

    fn hash_with_seed(bytes: &[u8], seed: NoSeed) -> (r: u32) {
        city_hash_32(bytes)
    }

    fn narrow(h: u32) -> (r: u64) {
        h as u64
    }
}

/// CityHash 64-bit hash functions.
#[derive(Clone, Copy)]
pub struct Hash64;

impl Hash64 {
    /// Hashes a byte array with two seeds hashed into the result.
    pub fn hash_with_seeds(bytes: &[u8], seed0: u64, seed1: u64) -> (r: u64)
        ensures
            r == city64_seeds_of(bytes@, seed0, seed1),
    {
        city_hash_64_with_seeds(bytes, seed0, seed1)
    }
}

impl FastHash for Hash64 {
    type Hash = u64;

    type Seed = u64;

    open spec fn hash_of(bytes: Seq<u8>, seed: Option<u64>) -> u64 {
        match seed {
            Some(s) => city64_seeded_of(bytes, s),
            None => city64_of(bytes),
        }
    }

    open spec fn narrow_of(h: u64) -> u64 {
        h
    }

    fn hash(bytes: &[u8]) -> (r: u64) {
        city_hash_64(bytes)
    }

    fn hash_with_seed(bytes: &[u8], seed: u64) -> (r: u64) {
        city_hash_64_with_seed(bytes, seed)
    }

    fn narrow(h: u64) -> (r: u64) {
        h
    }
}

/// CityHash 128-bit hash functions. `finish` reports the low 64 bits.
#[derive(Clone, Copy)]
pub struct Hash128;

impl FastHash for Hash128 {
    type Hash = u128;

    type Seed = u128;

    open spec fn hash_of(bytes: Seq<u8>, seed: Option<u128>) -> u128 {
        match seed {
            Some(s) => city128_seeded_of(bytes, s),
            None => city128_of(bytes),
        }
    }

    open spec fn narrow_of(h: u128) -> u64 {
        h as u64
    }

    fn hash(bytes: &[u8]) -> (r: u128) {
        city_hash_128(bytes)
    }

    fn hash_with_seed(bytes: &[u8], seed: u128) -> (r: u128) {
        city_hash_128_with_seed(bytes, seed)
    }

    fn narrow(h: u128) -> (r: u64) {
        h as u64
    }
}

/// Incremental CityHash32: buffers what is written, hashes it on `finish`.
pub type Hasher32 = BufHasher<Hash32>;

/// Incremental CityHash64: buffers what is written, hashes it on `finish`.
pub type Hasher64 = BufHasher<Hash64>;

/// Incremental CityHash128: buffers what is written, hashes it on `finish`
/// and `finish_ext`.
pub type Hasher128 = BufHasher<Hash128>;

impl HasherExt for BufHasher<Hash128> {
    open spec fn digest_ext_of(b: Option<u128>, bytes: Seq<u8>) -> u128 {
        Hash128::hash_of(bytes, b)
    }

    fn finish_ext(&self) -> (r: u128) {
        self.digest()
    }
}

/// CityHash 32-bit hash of a byte array.
pub fn hash32(v: &[u8]) -> (r: u32)
    ensures
        r == city32_of(v@),
{
    Hash32::hash(v)
}

/// CityHash 64-bit hash of a byte array.
pub fn hash64(v: &[u8]) -> (r: u64)
    ensures
        r == city64_of(v@),
{
    Hash64::hash(v)
}

/// CityHash 64-bit hash of a byte array, with a 64-bit seed hashed in.
pub fn hash64_with_seed(v: &[u8], seed: u64) -> (r: u64)
    ensures
        r == city64_seeded_of(v@, seed),
{
    Hash64::hash_with_seed(v, seed)
}

/// CityHash 64-bit hash of a byte array, with two 64-bit seeds hashed in.
pub fn hash64_with_seeds(v: &[u8], seed0: u64, seed1: u64) -> (r: u64)
    ensures
        r == city64_seeds_of(v@, seed0, seed1),
{
    Hash64::hash_with_seeds(v, seed0, seed1)
}

/// CityHash 128-bit hash of a byte array.
pub fn hash128(v: &[u8]) -> (r: u128)
    ensures
        r == city128_of(v@),
{
    Hash128::hash(v)
}

/// CityHash 128-bit hash of a byte array, with a 128-bit seed hashed in.
pub fn hash128_with_seed(v: &[u8], seed: u128) -> (r: u128)
    ensures
        r == city128_seeded_of(v@, seed),
{
    Hash128::hash_with_seed(v, seed)
}

} // verus!
