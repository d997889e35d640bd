use rand::Rng;
use rand::SeedableRng;
use rand_chacha::ChaCha8Rng;
use vstd::prelude::*;

verus! {

/// The ChaCha generator (eight rounds) that the coins are drawn from.
#[verifier::external_type_specification]
#[verifier::external_body]
pub struct ExChaCha8Rng(ChaCha8Rng);

/// The coin that the `k`-th draw (counting from 0) of `gen_range(0..=1u8)` gives
/// on the generator `ChaCha8Rng::seed_from_u64(seed)`.
pub uninterp spec fn coin_at(seed: u64, k: nat) -> u8;

/// The first eighteen coins of the stream that `seed` fixes: enough for a casting.
pub open spec fn coins_of(seed: u64) -> Seq<u8> {
    Seq::new(18, |k: int| coin_at(seed, k as nat))
}

/// A ChaCha stream of coins, with the seed it was made from and the number of
/// coins drawn from it so far. Only `new` and `flip` touch its fields.
pub struct CoinStream {
    rng: ChaCha8Rng,
    seed: Ghost<u64>,
    drawn: Ghost<nat>,
}

impl CoinStream {
    /// The seed the stream was made from.
    pub closed spec fn seed(&self) -> u64 {
        self.seed@
    }

    /// How many coins have been drawn from the stream.
    pub closed spec fn drawn(&self) -> nat {
        self.drawn@
    }

    /// Relies on `rand_core::SeedableRng::seed_from_u64` for
    /// `rand_chacha::ChaCha8Rng`: a fresh generator at the start of the stream
    /// that `seed` fixes.
    #[verifier::external_body]
    pub(crate) fn new(seed: u64) -> (r: CoinStream)
        ensures
            r.seed() == seed,
            r.drawn() == 0,
    {
        CoinStream { rng: ChaCha8Rng::seed_from_u64(seed), seed: Ghost(seed), drawn: Ghost(0) }
    }

    /// Relies on `rand::Rng::gen_range` over `0..=1u8`: the next coin of the
    /// stream. Over this range each draw takes one word and none is rejected, and
    /// the range is not empty, so it does not panic.
    #[verifier::external_body]
    pub(crate) fn flip(&mut self) -> (r: u8)
        ensures
            r == coin_at(old(self).seed(), old(self).drawn()),
            r <= 1,
            final(self).seed() == old(self).seed(),
            final(self).drawn() == old(self).drawn() + 1,
    {
        self.rng.gen_range(0..=1u8)
    }
}

} // verus!
