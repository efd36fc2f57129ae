//! Capability traits shared by every hash family, and the buffering adapter
//! that makes an incremental hasher out of a one-shot hash function.

use vstd::prelude::*;

verus! {

/// A one-shot hash function over byte buffers.
///
/// `hash_of(bytes, None)` is the digest of the unseeded entry point and
/// `hash_of(bytes, Some(seed))` that of the seeded one.
pub trait FastHash {
    type Hash: Copy;

    type Seed: Copy;

    /// The digest that the family assigns to `bytes`.
    spec fn hash_of(bytes: Seq<u8>, seed: Option<Self::Seed>) -> Self::Hash;

    /// The 64-bit projection of a digest, as reported by `finish`.
    spec fn narrow_of(h: Self::Hash) -> u64;

    fn hash(bytes: &[u8]) -> (r: Self::Hash)
        ensures
            r == Self::hash_of(bytes@, None),
    ;

    fn hash_with_seed(bytes: &[u8], seed: Self::Seed) -> (r: Self::Hash)
        ensures
            r == Self::hash_of(bytes@, Some(seed)),
    ;

    fn narrow(h: Self::Hash) -> (r: u64)
        ensures
            r == Self::narrow_of(h),
    ;
}

/// The seed type of a family that takes no seed.
#[derive(Clone, Copy)]
pub struct NoSeed;

/// An incremental hasher: bytes are written in any number of chunks and the
/// digest of everything written so far can be asked for at any time.
///
/// `binding` is what the instance was created or reset with (its seed); the
/// digest is a function of the binding and the bytes written alone.
pub trait FastHasher: Sized {
    type Seed;

    type Binding;

    /// The bytes written since creation or the last reset, in order.
    spec fn written(&self) -> Seq<u8>;

    spec fn binding(&self) -> Self::Binding;

    /// The binding of an instance created without a seed.
    spec fn unseeded() -> Self::Binding;

    /// The binding of an instance created with `seed`.
    spec fn seeded(seed: Self::Seed) -> Self::Binding;

    /// What `finish` reports once exactly `bytes` have been written under `b`.
    spec fn digest_of(b: Self::Binding, bytes: Seq<u8>) -> u64;

    /// The longest chunk that one `write` accepts in the current state.
    spec fn max_write(&self) -> nat;

    fn new() -> (r: Self)
        ensures
            r.written() == Seq::<u8>::empty(),
            r.binding() == Self::unseeded(),
    ;

    /// The longest chunk that one `write` accepts now.
    fn room(&self) -> (r: usize)
        ensures
            r as nat == self.max_write(),
    ;

    fn with_seed(seed: Self::Seed) -> (r: Self)
        ensures
            r.written() == Seq::<u8>::empty(),
            r.binding() == Self::seeded(seed),
    ;

    fn write(&mut self, bytes: &[u8])
        requires
            bytes@.len() <= old(self).max_write(),
        ensures
            final(self).written() == old(self).written() + bytes@,
            final(self).binding() == old(self).binding(),
            final(self).max_write() + bytes@.len() >= old(self).max_write(),
    ;

    /// Starts over without a seed: afterwards the instance is, to every
    /// further write and query, a fresh `new()`.
    fn reset(&mut self)
        ensures
            final(self).written() == Seq::<u8>::empty(),
            final(self).binding() == Self::unseeded(),
    ;

    /// Starts over with `seed`: afterwards the instance is, to every further
    /// write and query, a fresh `with_seed(seed)`.
    fn reset_with_seed(&mut self, seed: Self::Seed)
        ensures
            final(self).written() == Seq::<u8>::empty(),
            final(self).binding() == Self::seeded(seed),
    ;

    fn finish(&self) -> (r: u64)
        ensures
            r == Self::digest_of(self.binding(), self.written()),
    ;
}

/// A hasher whose natural digest is wider than the 64 bits of `finish`.
pub trait HasherExt: FastHasher {
    /// The full-width digest of `bytes` written under `b`.
    spec fn digest_ext_of(b: Self::Binding, bytes: Seq<u8>) -> u128;

    fn finish_ext(&self) -> (r: u128)
        ensures
            r == Self::digest_ext_of(self.binding(), self.written()),
    ;
}

/// The buffering adapter: keeps every byte written and runs the one-shot
/// hash `H` over all of them whenever a digest is asked for.
pub struct BufHasher<H: FastHash> {
    seed: Option<H::Seed>,
    bytes: Vec<u8>,
}

impl<H: FastHash> BufHasher<H> {
    /// The digest of everything written so far, at full width.
    pub fn digest(&self) -> (r: H::Hash)
        ensures
            r == H::hash_of(self.written(), self.binding()),
    {
        match self.seed {
            Some(s) => H::hash_with_seed(self.bytes.as_slice(), s),
            None => H::hash(self.bytes.as_slice()),
        }
    }
}

impl<H: FastHash> FastHasher for BufHasher<H> {
    type Seed = H::Seed;

    type Binding = Option<H::Seed>;

    closed spec fn written(&self) -> Seq<u8> {
        self.bytes@
    }

    closed spec fn binding(&self) -> Option<H::Seed> {
        self.seed
    }

    open spec fn unseeded() -> Option<H::Seed> {
        None
    }

    open spec fn seeded(seed: H::Seed) -> Option<H::Seed> {
        Some(seed)
    }

    open spec fn digest_of(b: Option<H::Seed>, bytes: Seq<u8>) -> u64 {
        H::narrow_of(H::hash_of(bytes, b))
    }

    open spec fn max_write(&self) -> nat {
        (usize::MAX - self.written().len()) as nat
    }

    fn new() -> (r: Self) {
        BufHasher { seed: None, bytes: Vec::new() }
    }

    fn room(&self) -> (r: usize) {
        usize::MAX - self.bytes.len()
    }

    fn with_seed(seed: H::Seed) -> (r: Self) {
        BufHasher { seed: Some(seed), bytes: Vec::new() }
    }

    fn write(&mut self, bytes: &[u8]) {
        let ghost before = self.bytes@;
        let len: usize = self.bytes.len();
        assert(len == before.len());
        self.bytes.extend_from_slice(bytes);
        assert(self.bytes@ =~= before + bytes@);
    }

    fn reset(&mut self) {
        self.bytes.clear();
        self.seed = None;
    }

    fn reset_with_seed(&mut self, seed: H::Seed) {
        self.bytes.clear();
        self.seed = Some(seed);
    }

    fn finish(&self) -> (r: u64) {
        H::narrow(self.digest())
    }
}

impl<H: FastHash> Clone for BufHasher<H> {
    /// An independent copy: same seed, its own copy of the bytes written.
    fn clone(&self) -> (r: Self)
        ensures
            r.written() == self.written(),
            r.binding() == self.binding(),
    {
        let bytes = self.bytes.clone();
        assert(bytes@ =~= self.bytes@);
        BufHasher { seed: self.seed, bytes }
    }
}

impl<H: FastHash> core::hash::Hasher for BufHasher<H> {
    fn finish(&self) -> u64 {
        FastHasher::finish(self)
    }

    /// Appends `bytes` when the total still fits in `usize`. A buffer of
    /// more than `usize::MAX` bytes cannot exist, so a chunk that would go
    /// past that is left out and the hasher stays as it was.
    fn write(&mut self, bytes: &[u8])
        ensures
            old(self).written().len() + bytes@.len() <= usize::MAX ==> final(self).written()
                == old(self).written() + bytes@,
            old(self).written().len() + bytes@.len() > usize::MAX ==> *final(self) == *old(self),
            final(self).binding() == old(self).binding(),
    {
        let len: usize = self.bytes.len();
        assert(self.bytes@.len() == len);
        if bytes.len() <= self.room() {
            FastHasher::write(self, bytes)
        }
    }
}

impl<H: FastHash> Default for BufHasher<H> {
    fn default() -> (r: Self)
        ensures
            r.written() == Seq::<u8>::empty(),
            r.binding() == Self::unseeded(),
    {
        Self::new()
    }
}

/// Writes `chunks` in order. Whatever the split, the hasher ends up having
/// been written exactly the concatenation of the chunks.
pub fn write_all<H: FastHasher>(h: &mut H, chunks: &Vec<Vec<u8>>)
    requires
        chunks_bytes(chunks@).len() <= old(h).max_write(),
    ensures
        final(h).written() == old(h).written() + chunks_bytes(chunks@),
        final(h).binding() == old(h).binding(),
{
    let ghost start = h.written();
    let mut i: usize = 0;
    assert(chunks@.skip(0) =~= chunks@);
    assert(chunks@.take(0) =~= Seq::<Vec<u8>>::empty());
    assert(start + Seq::<u8>::empty() =~= start);
    while i < chunks.len()
        invariant
            0 <= i <= chunks@.len(),
            h.written() == start + chunks_bytes(chunks@.take(i as int)),
            h.binding() == old(h).binding(),
            chunks_bytes(chunks@.skip(i as int)).len() <= h.max_write(),
        decreases chunks@.len() - i,
    {
        proof {
            lemma_chunks_bytes_split(chunks@, i as int);
            lemma_chunks_bytes_split(chunks@, i as int + 1);
            lemma_chunks_bytes_split(chunks@.skip(i as int), 1);
            assert(chunks@.skip(i as int).take(1) =~= seq![chunks@[i as int]]);
            assert(chunks@.skip(i as int).skip(1) =~= chunks@.skip(i as int + 1));
            assert(chunks@.take(i as int + 1).take(i as int) =~= chunks@.take(i as int));
            assert(chunks@.take(i as int + 1).skip(i as int) =~= seq![chunks@[i as int]]);
            lemma_chunks_bytes_single(chunks@[i as int]);
        }
        h.write(chunks[i].as_slice());
        proof {
            assert(h.written() =~= start + chunks_bytes(chunks@.take(i as int + 1)));
        }
        i = i + 1;
    }
    assert(chunks@.take(chunks@.len() as int) =~= chunks@);
}

/// The size of the buffer that a byte source is read into, one chunk at a time.
pub const STREAM_CHUNK_LEN: usize = 4096;

/// What one read from a byte source gave.
pub enum ReadOutcome {
    /// One or more bytes were read; they are handed over with the outcome.
    Bytes,
    /// The source has nothing more.
    Exhausted,
    /// The read was interrupted before any byte arrived; it may be retried.
    Interrupted,
    /// The read failed.
    Failed,
}

/// What the reader of a byte source does next.
#[derive(PartialEq, Eq, Structural)]
pub enum StreamStep {
    /// Read again; this many bytes have been consumed so far.
    Continue(usize),
    /// Stop with success; this many bytes were consumed in all.
    Finished(usize),
    /// Stop and pass the read failure on; this many bytes were consumed
    /// (and written) before it.
    Failed(usize),
}

/// Takes in the outcome of one read while a byte source is hashed: bytes
/// read are written to `h` at once, an interrupted read is retried, and
/// exhaustion or a failure ends the stream. `total` is the number of bytes
/// consumed before this read; `data` the bytes read (empty unless `Bytes`).
pub fn stream_step<H: FastHasher>(h: &mut H, total: usize, outcome: ReadOutcome, data: &[u8]) -> (r:
    StreamStep)
    requires
        data@.len() <= old(h).max_write(),
        total + data@.len() <= usize::MAX,
    ensures
        match outcome {
            ReadOutcome::Bytes => {
                &&& r == StreamStep::Continue((total + data@.len()) as usize)
                &&& final(h).written() == old(h).written() + data@
                &&& final(h).binding() == old(h).binding()
            },
            ReadOutcome::Exhausted => r == StreamStep::Finished(total) && *final(h) == *old(h),
            ReadOutcome::Interrupted => r == StreamStep::Continue(total) && *final(h) == *old(h),
            ReadOutcome::Failed => r == StreamStep::Failed(total) && *final(h) == *old(h),
        },
{
    match outcome {
        ReadOutcome::Bytes => {
            h.write(data);
            StreamStep::Continue(total + data.len())
        },
        ReadOutcome::Exhausted => StreamStep::Finished(total),
        ReadOutcome::Interrupted => StreamStep::Continue(total),
        ReadOutcome::Failed => StreamStep::Failed(total),
    }
}

/// Writing an empty chunk leaves what was written unchanged, so the digest
/// after it is the digest before it.
pub proof fn lemma_empty_write<H: FastHasher>(before: H, after: H)
    requires
        after.written() == before.written() + Seq::<u8>::empty(),
        after.binding() == before.binding(),
    ensures
        H::digest_of(after.binding(), after.written()) == H::digest_of(
            before.binding(),
            before.written(),
        ),
{
    assert(before.written() + Seq::<u8>::empty() =~= before.written());
}

/// Appending one more chunk to a list appends its bytes to the
/// concatenation: a hasher written the chunks one `write` at a time has
/// been written `chunks_bytes` of the whole list.
pub proof fn lemma_chunks_bytes_push(chunks: Seq<Vec<u8>>, c: Vec<u8>)
    ensures
        chunks_bytes(chunks.push(c)) == chunks_bytes(chunks) + c@,
{
    assert(chunks.push(c).drop_last() =~= chunks);
}

/// Split invariance of the buffering adapter: whatever the split of the
/// input into chunks, a `BufHasher<H>` that was written those chunks, in
/// order and from fresh, reports the one-shot digest of their concatenation
/// under its seed (`None` for the unseeded entry point).
pub proof fn lemma_buffered_split_invariance<H: FastHash>(
    seed: Option<H::Seed>,
    chunks: Seq<Vec<u8>>,
)
    ensures
        Seq::<u8>::empty() + chunks_bytes(chunks) == chunks_bytes(chunks),
        BufHasher::<H>::digest_of(seed, Seq::<u8>::empty() + chunks_bytes(chunks)) == H::narrow_of(
            H::hash_of(chunks_bytes(chunks), seed),
        ),
{
    assert(Seq::<u8>::empty() + chunks_bytes(chunks) =~= chunks_bytes(chunks));
}

/// The concatenation of a list of byte chunks, in order.
pub open spec fn chunks_bytes(chunks: Seq<Vec<u8>>) -> Seq<u8>
    decreases chunks.len(),
{
    if chunks.len() == 0 {
        Seq::empty()
    } else {
        chunks_bytes(chunks.drop_last()) + chunks.last()@
    }
}

proof fn lemma_chunks_bytes_single(c: Vec<u8>)
    ensures
        chunks_bytes(seq![c]) == c@,
{
    assert(seq![c].drop_last() =~= Seq::<Vec<u8>>::empty());
    assert(chunks_bytes(Seq::<Vec<u8>>::empty()) == Seq::<u8>::empty());
    assert(Seq::<u8>::empty() + c@ =~= c@);
}

/// Concatenating a list equals concatenating its first `k` chunks, then the rest.
proof fn lemma_chunks_bytes_split(chunks: Seq<Vec<u8>>, k: int)
    requires
        0 <= k <= chunks.len(),
    ensures
        chunks_bytes(chunks) == chunks_bytes(chunks.take(k)) + chunks_bytes(chunks.skip(k)),
    decreases chunks.len(),
{
    if k == chunks.len() {
        assert(chunks.take(k) =~= chunks);
        assert(chunks.skip(k) =~= Seq::<Vec<u8>>::empty());
        assert(chunks_bytes(chunks) + Seq::<u8>::empty() =~= chunks_bytes(chunks));
    } else {
        let init = chunks.drop_last();
        lemma_chunks_bytes_split(init, k);
        assert(init.take(k) =~= chunks.take(k));
        assert(chunks.skip(k).drop_last() =~= init.skip(k));
        assert(chunks.skip(k).last() == chunks.last());
        assert(chunks_bytes(chunks.take(k)) + chunks_bytes(init.skip(k)) + chunks.last()@
            =~= chunks_bytes(chunks.take(k)) + (chunks_bytes(init.skip(k)) + chunks.last()@));
    }
}

} // verus!
