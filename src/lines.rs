use crate::yao::YaoType;
use vstd::arithmetic::power::{lemma_pow_positive, pow};
use vstd::arithmetic::power2::{lemma2_to64, pow2};
use vstd::bits::lemma_u8_shl_is_mul;
use vstd::prelude::*;

verus! {

/// The six lines of one casting, stored bottom (index 0) to top (index 5).
#[derive(Clone, Copy, Debug, PartialEq, Eq)]
pub struct LineSequence {
    pub lines: [YaoType; 6],
}

impl View for LineSequence {
    type V = Seq<YaoType>;

    open spec fn view(&self) -> Seq<YaoType> {
        self.lines@
    }
}

/// The number whose bit `i` is `bits[i]` (each bit 0 or 1).
pub open spec fn key_of(bits: Seq<u8>) -> int
    decreases bits.len(),
{
    if bits.len() == 0 {
        0
    } else {
        key_of(bits.drop_last()) + bits.last() * pow2((bits.len() - 1) as nat)
    }
}

/// The original-hexagram bit of each line, bottom to top.
pub open spec fn original_bits(lines: Seq<YaoType>) -> Seq<u8> {
    lines.map_values(|y: YaoType| y.original_bit())
}

/// The changed-hexagram bit of each line, bottom to top.
pub open spec fn changed_bits(lines: Seq<YaoType>) -> Seq<u8> {
    lines.map_values(|y: YaoType| y.changed_bit())
}

/// The key of the hexagram that the lines show as cast.
pub open spec fn original_key(lines: Seq<YaoType>) -> int {
    key_of(original_bits(lines))
}

/// The key of the hexagram that the lines show once the old lines have turned.
pub open spec fn changed_key(lines: Seq<YaoType>) -> int {
    key_of(changed_bits(lines))
}

/// The six lines that eighteen coins give, three per line, bottom line first.
pub open spec fn lines_of_coins(coins: Seq<u8>) -> Seq<YaoType> {
    Seq::new(6, |i: int| YaoType::of_coins(coins[3 * i], coins[3 * i + 1], coins[3 * i + 2]))
}

proof fn lemma_or_adds_bit(x: u8, n: u8)
    by (bit_vector)
    requires
        n < 8,
        x < (1u8 << n),
    ensures
        x | (1u8 << n) == x + (1u8 << n),
        x + (1u8 << n) < 256,
{
}

/// Bits that are each 0 or 1 make a key below `2^len`.
pub proof fn lemma_key_bound(bits: Seq<u8>)
    requires
        forall|i: int| 0 <= i < bits.len() ==> bits[i] <= 1,
    ensures
        0 <= key_of(bits) < pow2(bits.len()),
    decreases bits.len(),
{
    reveal(pow);
    if bits.len() > 0 {
        let n = (bits.len() - 1) as nat;
        lemma_key_bound(bits.drop_last());
        let b = bits.last();
        lemma_pow_positive(2, n);
        assert(pow(2, bits.len()) == 2 * pow(2, n));
        let p = pow2(n);
        assert(0 <= b * p <= p) by (nonlinear_arith)
            requires
                b <= 1,
                p >= 0,
        ;
        assert(pow2(bits.len()) == 2 * p);
    }
}

proof fn lemma_bit_of_sum(x: u8, b: u8, m: u8, j: u8)
    by (bit_vector)
    requires
        m < 8,
        j <= m,
        b <= 1,
        x < (1u8 << m),
    ensures
        ((x + b * (1u8 << m)) as u8 >> j) & 1 == if j == m {
            b
        } else {
            (x >> j) & 1
        },
{
}

/// Bit `j` of the key made of `bits` is `bits[j]`.
pub proof fn lemma_key_bits(bits: Seq<u8>, j: int)
    requires
        bits.len() <= 8,
        0 <= j < bits.len(),
        forall|i: int| 0 <= i < bits.len() ==> bits[i] <= 1,
    ensures
        ((key_of(bits) as u8) >> (j as u8)) & 1 == bits[j],
    decreases bits.len(),
{
    let m = (bits.len() - 1) as nat;
    let rest = bits.drop_last();
    lemma_key_bound(rest);
    lemma2_to64();
    lemma_u8_shl_is_mul(1, m as u8);
    let x = key_of(rest) as u8;
    let b = bits.last();
    lemma_bit_of_sum(x, b, m as u8, j as u8);
    if j < m {
        lemma_key_bits(rest, j);
    }
}

impl LineSequence {
    /// Casts six lines from eighteen coins (each 0 or 1), three per line, bottom
    /// line first.
    pub fn from_coins(coins: &[u8; 18]) -> (r: LineSequence)
        requires
            forall|i: int| 0 <= i < 18 ==> coins@[i] <= 1,
        ensures
            r@ == lines_of_coins(coins@),
    {
        let r = LineSequence {
            lines: [
                YaoType::from_coins(coins[0], coins[1], coins[2]),
                YaoType::from_coins(coins[3], coins[4], coins[5]),
                YaoType::from_coins(coins[6], coins[7], coins[8]),
                YaoType::from_coins(coins[9], coins[10], coins[11]),
                YaoType::from_coins(coins[12], coins[13], coins[14]),
                YaoType::from_coins(coins[15], coins[16], coins[17]),
            ],
        };
        assert(r@ =~= lines_of_coins(coins@));
        r
    }

    /// The keys of the original and the changed hexagram: bit `i` of each is the
    /// corresponding bit of line `i`.
    pub fn encode_keys(&self) -> (r: (u8, u8))
        ensures
            r.0 == original_key(self@),
            r.1 == changed_key(self@),
            r.0 < 64,
            r.1 < 64,
    {
        let mut orig_bits: u8 = 0;
        let mut chg_bits: u8 = 0;
        proof {
            lemma2_to64();
        }
        for i in 0..6
            invariant
                orig_bits == original_key(self@.take(i as int)),
                chg_bits == changed_key(self@.take(i as int)),
                orig_bits < pow2(i as nat),
                chg_bits < pow2(i as nat),
        {
            let yao = self.lines[i];
            let ghost pre = self@.take(i as int);
            let ghost post = self@.take(i as int + 1);
            proof {
                assert(original_bits(post).drop_last() =~= original_bits(pre));
                assert(changed_bits(post).drop_last() =~= changed_bits(pre));
                assert(original_bits(post).last() == yao.original_bit());
                assert(changed_bits(post).last() == yao.changed_bit());
                assert(original_key(post) == original_key(pre) + yao.original_bit() * pow2(
                    i as nat,
                ));
                assert(changed_key(post) == changed_key(pre) + yao.changed_bit() * pow2(
                    i as nat,
                ));
                lemma2_to64();
                lemma_u8_shl_is_mul(1, i as u8);
            }
            if yao.to_original_bit() == 1 {
                proof {
                    lemma_or_adds_bit(orig_bits, i as u8);
                }
                orig_bits |= 1u8 << (i as u8);
            }
            if yao.to_changed_bit() == 1 {
                proof {
                    lemma_or_adds_bit(chg_bits, i as u8);
                }
                chg_bits |= 1u8 << (i as u8);
            }
        }
        proof {
            assert(self@.take(6) =~= self@);
            lemma2_to64();
        }
        (orig_bits, chg_bits)
    }
}

/// Bit `i` of the original key is 1 exactly where line `i` is solid as cast
/// (young or old yang); bit `i` of the changed key is 1 exactly where line `i`
/// is solid once turned (old yin or young yang).
pub proof fn lemma_encoding_round_trip(lines: LineSequence, i: int)
    requires
        0 <= i < 6,
    ensures
        (((original_key(lines@) as u8) >> (i as u8)) & 1 == 1) <==> (lines@[i] == YaoType::YoungYang
            || lines@[i] == YaoType::OldYang),
        (((changed_key(lines@) as u8) >> (i as u8)) & 1 == 1) <==> (lines@[i] == YaoType::OldYin
            || lines@[i] == YaoType::YoungYang),
{
    lemma_key_bits(original_bits(lines@), i);
    lemma_key_bits(changed_bits(lines@), i);
}

} // verus!
