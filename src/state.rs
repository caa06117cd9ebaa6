use std::collections::hash_map::{DefaultHasher, RandomState};
use std::hash::{BuildHasher, Hasher};
use vstd::prelude::*;
use vstd::std_specs::hash::DefaultHasherAdditionalSpecFns;

verus! {

/// Relies on `RandomState::new`: keys drawn at random; nothing is known of them.
pub assume_specification[ RandomState::new ]() -> RandomState;

/// Relies on `RandomState`'s `build_hasher`: a hasher keyed by the state's keys, whose
/// starting state is therefore unknown.
pub assume_specification[ <RandomState as BuildHasher>::build_hasher ](
    s: &RandomState,
) -> DefaultHasher;

/// Relies on `DefaultHasher`'s `Clone`: the copy holds the same state as the original.
pub assume_specification[ <DefaultHasher as Clone>::clone ](h: &DefaultHasher) -> (r:
    DefaultHasher)
    ensures
        r@ == h@,
;

/// The digest that a hasher in state `start` gives once `chunks` have been written to it,
/// one write per chunk.
pub open spec fn digest_after(start: Seq<Seq<u8>>, chunks: Seq<Seq<u8>>) -> u64 {
    DefaultHasher::spec_finish(start + chunks)
}

/// The bytes of each chunk.
pub open spec fn chunk_bytes(chunks: Seq<Vec<u8>>) -> Seq<Seq<u8>> {
    chunks.map_values(|c: Vec<u8>| c@)
}

/// The seed of a family of hashers: one hasher state, taken at random and then kept.
pub struct HashSeed {
    hasher: DefaultHasher,
}

impl View for HashSeed {
    type V = Seq<Seq<u8>>;

    closed spec fn view(&self) -> Seq<Seq<u8>> {
        self.hasher@
    }
}

impl HashSeed {
    /// A seed from fresh random keys.
    pub fn random() -> (r: HashSeed) {
        let keys = RandomState::new();
        HashSeed { hasher: keys.build_hasher() }
    }

    /// A builder over this seed.
    pub fn state(&self) -> (r: ConsistentState<'_>)
        ensures
            r@ == self@,
    {
        ConsistentState { seed: &self.hasher }
    }
}

/// Builds hashers that all start from one seed.
#[derive(Clone, Copy)]
pub struct ConsistentState<'a> {
    seed: &'a DefaultHasher,
}

impl<'a> View for ConsistentState<'a> {
    type V = Seq<Seq<u8>>;

    closed spec fn view(&self) -> Seq<Seq<u8>> {
        self.seed@
    }
}

impl<'a> ConsistentState<'a> {
    /// Builds a hasher, writes each chunk to it in order and returns its digest.
    pub fn hash_chunks(&self, chunks: &Vec<Vec<u8>>) -> (r: u64)
        ensures
            r == digest_after(self@, chunk_bytes(chunks@)),
    {
        let mut h = self.build_hasher();
        let n = chunks.len();
        let mut i: usize = 0;
        while i < n
            invariant
                n == chunks@.len(),
                0 <= i <= n,
                h@ == self@ + chunk_bytes(chunks@.take(i as int)),
            decreases n - i,
        {
            h.write(chunks[i].as_slice());
            assert(chunks@.take(i + 1) == chunks@.take(i as int).push(chunks@[i as int]));
            assert(chunk_bytes(chunks@.take(i + 1)) == chunk_bytes(chunks@.take(i as int)).push(
                chunks@[i as int]@,
            ));
            i = i + 1;
        }
        assert(chunks@.take(n as int) == chunks@);
        h.finish()
    }
}

impl<'a> BuildHasher for ConsistentState<'a> {
    type Hasher = DefaultHasher;

    fn build_hasher(&self) -> (r: DefaultHasher)
        ensures
            r@ == self@,
    {
        self.seed.clone()
    }
}

/// Two hashers built by builders over one seed give the same digest once the same chunks
/// have been written to each.
pub proof fn lemma_one_seed_same_digest<'a, 'b>(
    seed: HashSeed,
    b1: ConsistentState<'a>,
    b2: ConsistentState<'b>,
    h1: DefaultHasher,
    h2: DefaultHasher,
    chunks: Seq<Seq<u8>>,
)
    requires
        b1@ == seed@,
        b2@ == seed@,
        h1@ == b1@,
        h2@ == b2@,
    ensures
        digest_after(h1@, chunks) == digest_after(h2@, chunks),
{
}

/// Which of many builders over one seed builds a hasher makes no difference to the digest
/// it gives for any input.
pub proof fn lemma_builders_interchangeable<'a>(
    seed: HashSeed,
    builders: Seq<ConsistentState<'a>>,
    chunks: Seq<Seq<u8>>,
)
    requires
        forall|i: int| 0 <= i < builders.len() ==> (#[trigger] builders[i])@ == seed@,
    ensures
        forall|i: int, j: int|
            0 <= i < builders.len() && 0 <= j < builders.len() ==> digest_after(
                (#[trigger] builders[i])@,
                chunks,
            ) == digest_after((#[trigger] builders[j])@, chunks),
{
}

} // verus!
