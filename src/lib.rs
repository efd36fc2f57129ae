//! Uniform one-shot and incremental interfaces over non-cryptographic hash
//! families (CityHash, xxHash, XXH3), with contracts that tie every
//! incremental digest to the one-shot digest of the bytes written so far.

pub mod city;
pub mod hasher;
pub mod xx;

pub use hasher::{
    stream_step, write_all, BufHasher, FastHash, FastHasher, HasherExt, NoSeed, ReadOutcome, StreamStep,
    STREAM_CHUNK_LEN,
};
