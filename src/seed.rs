use std::collections::hash_map::DefaultHasher;
use std::hash::Hasher;
use vstd::bytes::{spec_u64_to_le_bytes, u64_to_le_bytes};
use vstd::prelude::*;
use vstd::std_specs::hash::DefaultHasherAdditionalSpecFns;

verus! {

/// What is fed to the hasher: the azimuth's bit pattern, the timestamp and the
/// acceleration's bit pattern, in that order, each as eight little-endian bytes.
pub open spec fn seed_input(azimuth_bits: u64, timestamp: i64, acceleration_bits: u64) -> Seq<
    Seq<u8>,
> {
    seq![
        spec_u64_to_le_bytes(azimuth_bits),
        spec_u64_to_le_bytes(timestamp as u64),
        spec_u64_to_le_bytes(acceleration_bits),
    ]
}

/// The seed of a casting: what `DefaultHasher::finish` gives after `seed_input` was written.
pub open spec fn seed_of(azimuth_bits: u64, timestamp: i64, acceleration_bits: u64) -> u64 {
    DefaultHasher::spec_finish(seed_input(azimuth_bits, timestamp, acceleration_bits))
}

/// Derives the seed from the raw bit patterns of the two readings and the
/// timestamp. Total: every bit pattern, NaN and infinities included, gives a seed.
pub fn derive_seed(azimuth_bits: u64, timestamp: i64, acceleration_bits: u64) -> (r: u64)
    ensures
        r == seed_of(azimuth_bits, timestamp, acceleration_bits),
{
    let mut hasher = DefaultHasher::new();
    let az = u64_to_le_bytes(azimuth_bits);
    let ts = u64_to_le_bytes(timestamp as u64);
    let acc = u64_to_le_bytes(acceleration_bits);
    hasher.write(az.as_slice());
    hasher.write(ts.as_slice());
    hasher.write(acc.as_slice());
    let seed = hasher.finish();
    proof {
        assert(hasher@ =~= seed_input(azimuth_bits, timestamp, acceleration_bits));
    }
    seed
}

} // verus!
