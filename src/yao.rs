use crate::coins::{coin_at, CoinStream};
use vstd::prelude::*;

verus! {

/// One line of a hexagram, as cast by three coins.
#[derive(Clone, Copy, Debug, PartialEq, Eq, Hash, Structural)]
pub enum YaoType {
    OldYin,
    YoungYang,
    YoungYin,
    OldYang,
}

impl YaoType {
    /// The traditional number of the line: 6, 7, 8 or 9.
    pub open spec fn spec_ordinal(self) -> u8 {
        match self {
            YaoType::OldYin => 6,
            YaoType::YoungYang => 7,
            YaoType::YoungYin => 8,
            YaoType::OldYang => 9,
        }
    }

    /// The bit this line contributes to the original hexagram (1 for a solid line).
    pub open spec fn original_bit(self) -> u8 {
        match self {
            YaoType::OldYin => 0,
            YaoType::YoungYang => 1,
            YaoType::YoungYin => 0,
            YaoType::OldYang => 1,
        }
    }

    /// The bit this line contributes to the changed hexagram: old lines flip.
    pub open spec fn changed_bit(self) -> u8 {
        match self {
            YaoType::OldYin => 1,
            YaoType::YoungYang => 1,
            YaoType::YoungYin => 0,
            YaoType::OldYang => 0,
        }
    }

    /// The line that a throw of three coins showing `sum` heads gives.
    pub open spec fn from_sum(sum: int) -> YaoType {
        if sum == 0 {
            YaoType::OldYin
        } else if sum == 1 {
            YaoType::YoungYang
        } else if sum == 2 {
            YaoType::YoungYin
        } else {
            YaoType::OldYang
        }
    }

    /// The line that three coins `a`, `b`, `c` (each 0 or 1) give.
    pub open spec fn of_coins(a: u8, b: u8, c: u8) -> YaoType {
        YaoType::from_sum(a + b + c)
    }

    pub fn ordinal(&self) -> (r: u8)
        ensures
            r == self.spec_ordinal(),
    {
        match self {
            YaoType::OldYin => 6,
            YaoType::YoungYang => 7,
            YaoType::YoungYin => 8,
            YaoType::OldYang => 9,
        }
    }

    pub fn to_original_bit(&self) -> (r: u8)
        ensures
            r == self.original_bit(),
    {
        match self {
            YaoType::OldYin => 0,
            YaoType::YoungYang => 1,
            YaoType::YoungYin => 0,
            YaoType::OldYang => 1,
        }
    }

    pub fn to_changed_bit(&self) -> (r: u8)
        ensures
            r == self.changed_bit(),
    {
        match self {
            YaoType::OldYin => 1,
            YaoType::YoungYang => 1,
            YaoType::YoungYin => 0,
            YaoType::OldYang => 0,
        }
    }

    /// Maps three coins, each 0 or 1, to a line by the number of ones.
    pub fn from_coins(a: u8, b: u8, c: u8) -> (r: YaoType)
        requires
            a <= 1,
            b <= 1,
            c <= 1,
        ensures
            r == YaoType::of_coins(a, b, c),
    {
        let sum: u8 = a + b + c;
        match sum {
            0 => YaoType::OldYin,
            1 => YaoType::YoungYang,
            2 => YaoType::YoungYin,
            _ => YaoType::OldYang,
        }
    }

    /// Casts one line: the next three coins of `stream`, mapped by `from_coins`.
    pub fn generate(stream: &mut CoinStream) -> (r: YaoType)
        ensures
            r == YaoType::of_coins(
                coin_at(old(stream).seed(), old(stream).drawn()),
                coin_at(old(stream).seed(), old(stream).drawn() + 1),
                coin_at(old(stream).seed(), old(stream).drawn() + 2),
            ),
            final(stream).seed() == old(stream).seed(),
            final(stream).drawn() == old(stream).drawn() + 3,
    {
        let a = stream.flip();
        let b = stream.flip();
        let c = stream.flip();
        YaoType::from_coins(a, b, c)
    }
}

/// The throws of three coins (each 0 or 1) that give the line `v`.
pub open spec fn throws_giving(v: YaoType) -> Set<(u8, u8, u8)> {
    Set::new(
        |t: (u8, u8, u8)| t.0 <= 1 && t.1 <= 1 && t.2 <= 1 && YaoType::of_coins(t.0, t.1, t.2) == v,
    )
}

/// Of the eight throws of three coins, one gives an old yin, three a young
/// yang, three a young yin and one an old yang: with fair coins the lines come
/// with chances 1/8, 3/8, 3/8 and 1/8.
pub proof fn lemma_three_coin_weights()
    ensures
        throws_giving(YaoType::OldYin).len() == 1,
        throws_giving(YaoType::YoungYang).len() == 3,
        throws_giving(YaoType::YoungYin).len() == 3,
        throws_giving(YaoType::OldYang).len() == 1,
{
    assert(throws_giving(YaoType::OldYin) =~= set![(0u8, 0u8, 0u8)]);
    let one_head = set![(1u8, 0u8, 0u8), (0u8, 1u8, 0u8), (0u8, 0u8, 1u8)];
    let two_heads = set![(0u8, 1u8, 1u8), (1u8, 0u8, 1u8), (1u8, 1u8, 0u8)];
    assert(throws_giving(YaoType::YoungYang) =~= one_head);
    assert(throws_giving(YaoType::YoungYin) =~= two_heads);
    assert(throws_giving(YaoType::OldYang) =~= set![(1u8, 1u8, 1u8)]);
    assert(one_head.len() == 3);
    assert(two_heads.len() == 3);
}

} // verus!
