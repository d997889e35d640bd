use crate::coins::{coins_of, CoinStream};
use crate::lines::{lines_of_coins, LineSequence};
use crate::report::{render_report, report_text};
use crate::seed::{derive_seed, seed_of};
use crate::yao::YaoType;
use vstd::prelude::*;

verus! {

/// The lines cast from `seed`: the first eighteen coins of its stream, three per
/// line, bottom line first.
pub open spec fn lines_of_seed(seed: u64) -> Seq<YaoType> {
    lines_of_coins(coins_of(seed))
}

/// The text of the casting for the given readings.
pub open spec fn casting_text(azimuth_bits: u64, timestamp: i64, acceleration_bits: u64) -> Seq<
    char,
> {
    let seed = seed_of(azimuth_bits, timestamp, acceleration_bits);
    report_text(seed, lines_of_seed(seed))
}

/// Casts six lines, bottom first, from one ChaCha stream seeded once with `seed`.
pub fn cast_lines(seed: u64) -> (r: LineSequence)
    ensures
        r@ == lines_of_seed(seed),
{
    let mut stream = CoinStream::new(seed);
    let l0 = YaoType::generate(&mut stream);
    let l1 = YaoType::generate(&mut stream);
    let l2 = YaoType::generate(&mut stream);
    let l3 = YaoType::generate(&mut stream);
    let l4 = YaoType::generate(&mut stream);
    let l5 = YaoType::generate(&mut stream);
    let r = LineSequence { lines: [l0, l1, l2, l3, l4, l5] };
    assert(r@ =~= lines_of_seed(seed));
    r
}

/// A whole casting from the bit patterns of the azimuth and the acceleration and
/// the timestamp: the seed, the lines drawn from it, and the text that shows them.
pub fn divination(azimuth_bits: u64, timestamp: i64, acceleration_bits: u64) -> (r: String)
    ensures
        r@ == casting_text(azimuth_bits, timestamp, acceleration_bits),
{
    let seed = derive_seed(azimuth_bits, timestamp, acceleration_bits);
    let lines = cast_lines(seed);
    render_report(seed, &lines)
}

/// Casting depends on the readings alone: readings with equal bit patterns give
/// the same seed, the same lines and the same text.
pub proof fn lemma_casting_is_deterministic(
    azimuth_bits: u64,
    timestamp: i64,
    acceleration_bits: u64,
    azimuth_bits2: u64,
    timestamp2: i64,
    acceleration_bits2: u64,
)
    requires
        azimuth_bits == azimuth_bits2,
        timestamp == timestamp2,
        acceleration_bits == acceleration_bits2,
    ensures
        seed_of(azimuth_bits, timestamp, acceleration_bits) == seed_of(
            azimuth_bits2,
            timestamp2,
            acceleration_bits2,
        ),
        lines_of_seed(seed_of(azimuth_bits, timestamp, acceleration_bits)) == lines_of_seed(
            seed_of(azimuth_bits2, timestamp2, acceleration_bits2),
        ),
        casting_text(azimuth_bits, timestamp, acceleration_bits) == casting_text(
            azimuth_bits2,
            timestamp2,
            acceleration_bits2,
        ),
{
}

} // verus!
