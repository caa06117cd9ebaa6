//! A hasher-builder whose hashers agree within one process.

mod state;

pub use state::{
    chunk_bytes, digest_after, lemma_builders_interchangeable, lemma_one_seed_same_digest,
    ConsistentState, HashSeed,
};
