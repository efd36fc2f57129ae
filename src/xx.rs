//! xxHash: 32- and 64-bit hashes, one-shot and truly incremental, computed by
//! the `xxhash-rust` crate.

use vstd::prelude::*;

use xxhash_rust::xxh32::Xxh32;
use xxhash_rust::xxh64::Xxh64;

use crate::hasher::{BufHasher, FastHash, FastHasher};

pub mod xxh3;

verus! {

/// The XXH32 digest of a byte string under a seed.
pub uninterp spec fn xxh32_of(bytes: Seq<u8>, seed: u32) -> u32;

/// The XXH64 digest of a byte string under a seed.
pub uninterp spec fn xxh64_of(bytes: Seq<u8>, seed: u64) -> u64;

/// The bytes fed to an XXH32 streaming state since it was created or reset.
pub uninterp spec fn xxh32_state_input(s: Xxh32) -> Seq<u8>;

/// The seed an XXH32 streaming state was created or last reset with.
pub uninterp spec fn xxh32_state_seed(s: Xxh32) -> u32;

/// The bytes fed to an XXH64 streaming state since it was created or reset.
pub uninterp spec fn xxh64_state_input(s: Xxh64) -> Seq<u8>;

/// The seed an XXH64 streaming state was created or last reset with.
pub uninterp spec fn xxh64_state_seed(s: Xxh64) -> u64;

/// The longest chunk that one `Xxh32::update` takes: its buffer arithmetic
/// adds the chunk length, cast to `u32`, to at most 15 buffered bytes.
pub const XXH32_MAX_UPDATE: usize = 0xFFFF_FFEF;

/// The longest chunk that one `Xxh64::update` takes: it adds the chunk length
/// to at most 31 buffered bytes in `usize`.
pub const XXH64_MAX_UPDATE: usize = usize::MAX - 31;

#[verifier::external_type_specification]
#[verifier::external_body]
pub struct ExXxh32(Xxh32);

#[verifier::external_type_specification]
#[verifier::external_body]
pub struct ExXxh64(Xxh64);

/// Relies on `xxhash_rust::xxh32::xxh32`, a function of the bytes and seed alone.
#[verifier::external_body]
fn xxh32_one_shot(bytes: &[u8], seed: u32) -> (r: u32)
    ensures
        r == xxh32_of(bytes@, seed),
{
    xxhash_rust::xxh32::xxh32(bytes, seed)
}

/// Relies on `xxhash_rust::xxh64::xxh64`, a function of the bytes and seed alone.
#[verifier::external_body]
fn xxh64_one_shot(bytes: &[u8], seed: u64) -> (r: u64)
    ensures
        r == xxh64_of(bytes@, seed),
{
    xxhash_rust::xxh64::xxh64(bytes, seed)
}

/// Relies on `Xxh32::new`: a fresh state with nothing fed.
#[verifier::external_body]
fn xxh32_state_new(seed: u32) -> (r: Xxh32)
    ensures
        xxh32_state_input(r) == Seq::<u8>::empty(),
        xxh32_state_seed(r) == seed,
{
    Xxh32::new(seed)
}

/// Relies on `Xxh32::update`: the chunk is appended to what was fed.
#[verifier::external_body]
fn xxh32_state_update(s: &mut Xxh32, bytes: &[u8])
    requires
        bytes@.len() <= XXH32_MAX_UPDATE,
    ensures
        xxh32_state_input(*final(s)) == xxh32_state_input(*old(s)) + bytes@,
        xxh32_state_seed(*final(s)) == xxh32_state_seed(*old(s)),
{
    s.update(bytes)
}

/// Relies on `Xxh32::digest`: the one-shot XXH32 of everything fed, state untouched.
#[verifier::external_body]
fn xxh32_state_digest(s: &Xxh32) -> (r: u32)
    ensures
        r == xxh32_of(xxh32_state_input(*s), xxh32_state_seed(*s)),
{
    s.digest()
}

/// Relies on `Xxh32::reset`: nothing fed, new seed bound.
#[verifier::external_body]
fn xxh32_state_reset(s: &mut Xxh32, seed: u32)
    ensures
        xxh32_state_input(*final(s)) == Seq::<u8>::empty(),
        xxh32_state_seed(*final(s)) == seed,
{
    s.reset(seed)
}

/// Relies on the derived `Clone` of `Xxh32`, which copies every field.
#[verifier::external_body]
fn xxh32_state_clone(s: &Xxh32) -> (r: Xxh32)
    ensures
        xxh32_state_input(r) == xxh32_state_input(*s),
        xxh32_state_seed(r) == xxh32_state_seed(*s),
{
    s.clone()
}

/// Relies on `Xxh64::new`: a fresh state with nothing fed.
#[verifier::external_body]
fn xxh64_state_new(seed: u64) -> (r: Xxh64)
    ensures
        xxh64_state_input(r) == Seq::<u8>::empty(),
        xxh64_state_seed(r) == seed,
{
    Xxh64::new(seed)
}

/// Relies on `Xxh64::update`: the chunk is appended to what was fed.
#[verifier::external_body]
fn xxh64_state_update(s: &mut Xxh64, bytes: &[u8])
    requires
        bytes@.len() <= XXH64_MAX_UPDATE,
    ensures
        xxh64_state_input(*final(s)) == xxh64_state_input(*old(s)) + bytes@,
        xxh64_state_seed(*final(s)) == xxh64_state_seed(*old(s)),
{
    s.update(bytes)
}

/// Relies on `Xxh64::digest`: the one-shot XXH64 of everything fed, state untouched.
#[verifier::external_body]
fn xxh64_state_digest(s: &Xxh64) -> (r: u64)
    ensures
        r == xxh64_of(xxh64_state_input(*s), xxh64_state_seed(*s)),
{
    s.digest()
}

/// Relies on `Xxh64::reset`: nothing fed, new seed bound.
#[verifier::external_body]
fn xxh64_state_reset(s: &mut Xxh64, seed: u64)
    ensures
        xxh64_state_input(*final(s)) == Seq::<u8>::empty(),
        xxh64_state_seed(*final(s)) == seed,
{
    s.reset(seed)
}

/// Relies on the derived `Clone` of `Xxh64`, which copies every field.
#[verifier::external_body]
fn xxh64_state_clone(s: &Xxh64) -> (r: Xxh64)
    ensures
        xxh64_state_input(r) == xxh64_state_input(*s),
        xxh64_state_seed(r) == xxh64_state_seed(*s),
{
    s.clone()
}

/// xxHash 32-bit hash functions; the unseeded form uses seed 0.
#[derive(Clone, Copy)]
pub struct Hash32;

impl FastHash for Hash32 {
    type Hash = u32;

    type Seed = u32;

    open spec fn hash_of(bytes: Seq<u8>, seed: Option<u32>) -> u32 {
        xxh32_of(bytes, seed.unwrap_or(0))
    }

    open spec fn narrow_of(h: u32) -> u64 {
        h as u64
    }

    fn hash(bytes: &[u8]) -> (r: u32) {
        xxh32_one_shot(bytes, 0)
    }

    fn hash_with_seed(bytes: &[u8], seed: u32) -> (r: u32) {
        xxh32_one_shot(bytes, seed)
    }

    fn narrow(h: u32) -> (r: u64) {
        h as u64
    }
}

/// xxHash 64-bit hash functions; the unseeded form uses seed 0.
#[derive(Clone, Copy)]
pub struct Hash64;

impl FastHash for Hash64 {
    type Hash = u64;

    type Seed = u64;

    open spec fn hash_of(bytes: Seq<u8>, seed: Option<u64>) -> u64 {
        xxh64_of(bytes, seed.unwrap_or(0))
    }

    open spec fn narrow_of(h: u64) -> u64 {
        h
    }

    fn hash(bytes: &[u8]) -> (r: u64) {
        xxh64_one_shot(bytes, 0)
    }

    fn hash_with_seed(bytes: &[u8], seed: u64) -> (r: u64) {
        xxh64_one_shot(bytes, seed)
    }

    fn narrow(h: u64) -> (r: u64) {
        h
    }
}

/// xxHash 32-bit hash of a byte array.
pub fn hash32(v: &[u8]) -> (r: u32)
    ensures
        r == xxh32_of(v@, 0),
{
    Hash32::hash(v)
}

/// xxHash 32-bit hash of a byte array, with a 32-bit seed hashed in.
pub fn hash32_with_seed(v: &[u8], seed: u32) -> (r: u32)
    ensures
        r == xxh32_of(v@, seed),
{
    Hash32::hash_with_seed(v, seed)
}

/// xxHash 64-bit hash of a byte array.
pub fn hash64(v: &[u8]) -> (r: u64)
    ensures
        r == xxh64_of(v@, 0),
{
    Hash64::hash(v)
}

/// xxHash 64-bit hash of a byte array, with a 64-bit seed hashed in.
pub fn hash64_with_seed(v: &[u8], seed: u64) -> (r: u64)
    ensures
        r == xxh64_of(v@, seed),
{
    Hash64::hash_with_seed(v, seed)
}

/// Incremental XXH32 over a native streaming state: each write is fed to
/// the state at once, and nothing is buffered here.
pub struct Hasher32 {
    state: Xxh32,
}

impl FastHasher for Hasher32 {
    type Seed = u32;

    type Binding = u32;

    closed spec fn written(&self) -> Seq<u8> {
        xxh32_state_input(self.state)
    }

    closed spec fn binding(&self) -> u32 {
        xxh32_state_seed(self.state)
    }

    open spec fn unseeded() -> u32 {
        0
    }

    open spec fn seeded(seed: u32) -> u32 {
        seed
    }

    open spec fn digest_of(b: u32, bytes: Seq<u8>) -> u64 {
        xxh32_of(bytes, b) as u64
    }

    open spec fn max_write(&self) -> nat {
        usize::MAX as nat
    }

    fn new() -> (r: Self) {
        Hasher32 { state: xxh32_state_new(0) }
    }

    fn room(&self) -> (r: usize) {
        usize::MAX
    }

    fn with_seed(seed: u32) -> (r: Self) {
        Hasher32 { state: xxh32_state_new(seed) }
    }

    /// Feeds `bytes` to the native state in pieces that one update accepts.
    fn write(&mut self, bytes: &[u8]) {
        let mut pos: usize = 0;
        while pos < bytes.len()
            invariant
                pos <= bytes@.len(),
                self.written() == old(self).written() + bytes@.subrange(0, pos as int),
                self.binding() == old(self).binding(),
            decreases bytes@.len() - pos,
        {
            let rest: usize = bytes.len() - pos;
            let n: usize = if rest < XXH32_MAX_UPDATE {
                rest
            } else {
                XXH32_MAX_UPDATE
            };
            let piece = vstd::slice::slice_subrange(bytes, pos, pos + n);
            xxh32_state_update(&mut self.state, piece);
            assert(bytes@.subrange(0, pos + n) =~= bytes@.subrange(0, pos as int) + piece@);
            pos = pos + n;
        }
        assert(bytes@.subrange(0, bytes@.len() as int) =~= bytes@);
    }

    /// Reuses the native state in place.
    fn reset(&mut self) {
        xxh32_state_reset(&mut self.state, 0)
    }

    /// Reuses the native state in place.
    fn reset_with_seed(&mut self, seed: u32) {
        xxh32_state_reset(&mut self.state, seed)
    }

    fn finish(&self) -> (r: u64) {
        xxh32_state_digest(&self.state) as u64
    }
}

impl Clone for Hasher32 {
    /// A deep copy: the copy's state is duplicated, not shared.
    fn clone(&self) -> (r: Self)
        ensures
            r.written() == self.written(),
            r.binding() == self.binding(),
    {
        Hasher32 { state: xxh32_state_clone(&self.state) }
    }
}

impl core::hash::Hasher for Hasher32 {
    fn finish(&self) -> u64 {
        FastHasher::finish(self)
    }

    fn write(&mut self, bytes: &[u8])
        ensures
            final(self).written() == old(self).written() + bytes@,
            final(self).binding() == old(self).binding(),
    {
        let len: usize = bytes.len();
        assert(bytes@.len() == len);
        FastHasher::write(self, bytes)
    }
}

impl Default for Hasher32 {
    fn default() -> (r: Self)
        ensures
            r.written() == Seq::<u8>::empty(),
            r.binding() == 0,
    {
        Self::new()
    }
}

/// Incremental XXH64 over a native streaming state: each write is fed to
/// the state at once, and nothing is buffered here.
pub struct Hasher64 {
    state: Xxh64,
}

impl FastHasher for Hasher64 {
    type Seed = u64;

    type Binding = u64;

    closed spec fn written(&self) -> Seq<u8> {
        xxh64_state_input(self.state)
    }

    closed spec fn binding(&self) -> u64 {
        xxh64_state_seed(self.state)
    }

    open spec fn unseeded() -> u64 {
        0
    }

    open spec fn seeded(seed: u64) -> u64 {
        seed
    }

    open spec fn digest_of(b: u64, bytes: Seq<u8>) -> u64 {
        xxh64_of(bytes, b)
    }

    open spec fn max_write(&self) -> nat {
        usize::MAX as nat
    }

    fn new() -> (r: Self) {
        Hasher64 { state: xxh64_state_new(0) }
    }

    fn room(&self) -> (r: usize) {
        usize::MAX
    }

    fn with_seed(seed: u64) -> (r: Self) {
        Hasher64 { state: xxh64_state_new(seed) }
    }

    /// Feeds `bytes` to the native state in pieces that one update accepts.
    fn write(&mut self, bytes: &[u8]) {
        let mut pos: usize = 0;
        while pos < bytes.len()
            invariant
                pos <= bytes@.len(),
                self.written() == old(self).written() + bytes@.subrange(0, pos as int),
                self.binding() == old(self).binding(),
            decreases bytes@.len() - pos,
        {
            let rest: usize = bytes.len() - pos;
            let n: usize = if rest < XXH64_MAX_UPDATE {
                rest
            } else {
                XXH64_MAX_UPDATE
            };
            let piece = vstd::slice::slice_subrange(bytes, pos, pos + n);
            xxh64_state_update(&mut self.state, piece);
            assert(bytes@.subrange(0, pos + n) =~= bytes@.subrange(0, pos as int) + piece@);
            pos = pos + n;
        }
        assert(bytes@.subrange(0, bytes@.len() as int) =~= bytes@);
    }

    /// Reuses the native state in place.
    fn reset(&mut self) {
        xxh64_state_reset(&mut self.state, 0)
    }

    /// Reuses the native state in place.
    fn reset_with_seed(&mut self, seed: u64) {
        xxh64_state_reset(&mut self.state, seed)
    }

    fn finish(&self) -> (r: u64) {
        xxh64_state_digest(&self.state)
    }
}

impl Clone for Hasher64 {
    /// A deep copy: the copy's state is duplicated, not shared.
    fn clone(&self) -> (r: Self)
        ensures
            r.written() == self.written(),
            r.binding() == self.binding(),
    {
        Hasher64 { state: xxh64_state_clone(&self.state) }
    }
}

impl core::hash::Hasher for Hasher64 {
    fn finish(&self) -> u64 {
        FastHasher::finish(self)
    }

    fn write(&mut self, bytes: &[u8])
        ensures
            final(self).written() == old(self).written() + bytes@,
            final(self).binding() == old(self).binding(),
    {
        let len: usize = bytes.len();
        assert(bytes@.len() == len);
        FastHasher::write(self, bytes)
    }
}

impl Default for Hasher64 {
    fn default() -> (r: Self)
        ensures
            r.written() == Seq::<u8>::empty(),
            r.binding() == 0,
    {
        Self::new()
    }
}

/// The native streaming `Hasher32` reports, for every seed and every byte
/// string written, the one-shot `Hash32` digest of that string, and so the
/// same digest as a buffering adapter over `Hash32` bound the same way.
pub proof fn lemma_xxh32_strategies_agree(seed: u32, bytes: Seq<u8>)
    ensures
        Hasher32::digest_of(Hasher32::seeded(seed), bytes) == Hash32::hash_of(bytes, Some(seed))
            as u64,
        Hasher32::digest_of(Hasher32::seeded(seed), bytes) == BufHasher::<Hash32>::digest_of(
            BufHasher::<Hash32>::seeded(seed),
            bytes,
        ),
        Hasher32::digest_of(Hasher32::unseeded(), bytes) == Hash32::hash_of(bytes, None) as u64,
        Hasher32::digest_of(Hasher32::unseeded(), bytes) == BufHasher::<Hash32>::digest_of(
            BufHasher::<Hash32>::unseeded(),
            bytes,
        ),
{
}

/// The native streaming `Hasher64` reports, for every seed and every byte
/// string written, the one-shot `Hash64` digest of that string, and so the
/// same digest as a buffering adapter over `Hash64` bound the same way.
pub proof fn lemma_xxh64_strategies_agree(seed: u64, bytes: Seq<u8>)
    ensures
        Hasher64::digest_of(Hasher64::seeded(seed), bytes) == Hash64::hash_of(bytes, Some(seed)),
        Hasher64::digest_of(Hasher64::seeded(seed), bytes) == BufHasher::<Hash64>::digest_of(
            BufHasher::<Hash64>::seeded(seed),
            bytes,
        ),
        Hasher64::digest_of(Hasher64::unseeded(), bytes) == Hash64::hash_of(bytes, None),
        Hasher64::digest_of(Hasher64::unseeded(), bytes) == BufHasher::<Hash64>::digest_of(
            BufHasher::<Hash64>::unseeded(),
            bytes,
        ),
{
}

} // verus!
