use crate::lines::{
    changed_bits, changed_key, lemma_key_bound, original_bits, original_key, LineSequence,
};
use vstd::arithmetic::power2::lemma2_to64;
use vstd::prelude::*;

verus! {

/// The name given to a key that is not a hexagram.
pub open spec fn unknown_name() -> Seq<char> {
    "未知"@
}

/// The name of the hexagram whose lines, bottom to top, are the bits 0 to 5 of
/// `key` (1 for a solid line); any other key has the name `unknown_name()`.
pub open spec fn gua_name(key: u8) -> Seq<char> {
    match key {
        0 => "坤为地"@,
        1 => "山地剥"@,
        2 => "水地比"@,
        3 => "风地观"@,
        4 => "雷地豫"@,
        5 => "火地晋"@,
        6 => "泽地萃"@,
        7 => "天地否"@,
        8 => "地山谦"@,
        9 => "艮为山"@,
        10 => "水山蹇"@,
        11 => "风山渐"@,
        12 => "雷山小过"@,
        13 => "火山旅"@,
        14 => "泽山咸"@,
        15 => "天山遁"@,
        16 => "地水师"@,
        17 => "山水蒙"@,
        18 => "坎为水"@,
        19 => "风水涣"@,
        20 => "雷水解"@,
        21 => "火水未济"@,
        22 => "泽水困"@,
        23 => "天水讼"@,
        24 => "地风升"@,
        25 => "山风蛊"@,
        26 => "水风井"@,
        27 => "巽为风"@,
        28 => "雷风恒"@,
        29 => "泽火革"@,
        30 => "泽风大过"@,
        31 => "天风姤"@,
        32 => "地雷复"@,
        33 => "山雷颐"@,
        34 => "水雷屯"@,
        35 => "风雷益"@,
        36 => "震为雷"@,
        37 => "火雷噬嗑"@,
        38 => "泽雷随"@,
        39 => "天雷无妄"@,
        40 => "地火明夷"@,
        41 => "山火贲"@,
        42 => "水火既济"@,
        43 => "风火家人"@,
        44 => "雷火丰"@,
        45 => "离为火"@,
        46 => "火风鼎"@,
        47 => "天火同人"@,
        48 => "地泽临"@,
        49 => "山泽损"@,
        50 => "水泽节"@,
        51 => "风泽中孚"@,
        52 => "雷泽归妹"@,
        53 => "火泽睽"@,
        54 => "兑为泽"@,
        55 => "天泽履"@,
        56 => "地天泰"@,
        57 => "山天大畜"@,
        58 => "水天需"@,
        59 => "风天小畜"@,
        60 => "雷天大壮"@,
        61 => "火天大有"@,
        62 => "泽天夬"@,
        63 => "乾为天"@,
        _ => unknown_name(),
    }
}

/// Looks up the name of the hexagram with the given key.
pub fn get_gua_name(binary: u8) -> (r: &'static str)
    ensures
        r@ == gua_name(binary),
{
    match binary {
        63 => "乾为天", 0 => "坤为地", 34 => "水雷屯", 17 => "山水蒙",
        58 => "水天需", 23 => "天水讼", 16 => "地水师", 2 => "水地比",
        59 => "风天小畜", 55 => "天泽履", 56 => "地天泰", 7 => "天地否",
        47 => "天火同人", 61 => "火天大有", 8 => "地山谦", 4 => "雷地豫",
        38 => "泽雷随", 25 => "山风蛊", 48 => "地泽临", 3 => "风地观",
        37 => "火雷噬嗑", 41 => "山火贲", 1 => "山地剥", 32 => "地雷复",
        39 => "天雷无妄", 57 => "山天大畜", 33 => "山雷颐", 30 => "泽风大过",
        18 => "坎为水", 45 => "离为火", 14 => "泽山咸", 28 => "雷风恒",
        15 => "天山遁", 60 => "雷天大壮", 5 => "火地晋", 40 => "地火明夷",
        43 => "风火家人", 53 => "火泽睽", 10 => "水山蹇", 20 => "雷水解",
        49 => "山泽损", 35 => "风雷益", 62 => "泽天夬", 31 => "天风姤",
        6 => "泽地萃", 24 => "地风升", 22 => "泽水困", 26 => "水风井",
        29 => "泽火革", 46 => "火风鼎", 36 => "震为雷", 9 => "艮为山",
        11 => "风山渐", 52 => "雷泽归妹", 44 => "雷火丰", 13 => "火山旅",
        27 => "巽为风", 54 => "兑为泽", 19 => "风水涣", 50 => "水泽节",
        51 => "风泽中孚", 12 => "雷山小过", 42 => "水火既济", 21 => "火水未济",
        _ => "未知",
    }
}

/// Every key in `0..64` names a hexagram, never the fallback.
pub proof fn lemma_table_complete(key: u8)
    requires
        key < 64,
    ensures
        gua_name(key) != unknown_name(),
        gua_name(key).len() >= 3,
{
    reveal_strlit("未知");
    reveal_strlit("坤为地");
    reveal_strlit("山地剥");
    reveal_strlit("水地比");
    reveal_strlit("风地观");
    reveal_strlit("雷地豫");
    reveal_strlit("火地晋");
    reveal_strlit("泽地萃");
    reveal_strlit("天地否");
    reveal_strlit("地山谦");
    reveal_strlit("艮为山");
    reveal_strlit("水山蹇");
    reveal_strlit("风山渐");
    reveal_strlit("雷山小过");
    reveal_strlit("火山旅");
    reveal_strlit("泽山咸");
    reveal_strlit("天山遁");
    reveal_strlit("地水师");
    reveal_strlit("山水蒙");
    reveal_strlit("坎为水");
    reveal_strlit("风水涣");
    reveal_strlit("雷水解");
    reveal_strlit("火水未济");
    reveal_strlit("泽水困");
    reveal_strlit("天水讼");
    reveal_strlit("地风升");
    reveal_strlit("山风蛊");
    reveal_strlit("水风井");
    reveal_strlit("巽为风");
    reveal_strlit("雷风恒");
    reveal_strlit("泽火革");
    reveal_strlit("泽风大过");
    reveal_strlit("天风姤");
    reveal_strlit("地雷复");
    reveal_strlit("山雷颐");
    reveal_strlit("水雷屯");
    reveal_strlit("风雷益");
    reveal_strlit("震为雷");
    reveal_strlit("火雷噬嗑");
    reveal_strlit("泽雷随");
    reveal_strlit("天雷无妄");
    reveal_strlit("地火明夷");
    reveal_strlit("山火贲");
    reveal_strlit("水火既济");
    reveal_strlit("风火家人");
    reveal_strlit("雷火丰");
    reveal_strlit("离为火");
    reveal_strlit("火风鼎");
    reveal_strlit("天火同人");
    reveal_strlit("地泽临");
    reveal_strlit("山泽损");
    reveal_strlit("水泽节");
    reveal_strlit("风泽中孚");
    reveal_strlit("雷泽归妹");
    reveal_strlit("火泽睽");
    reveal_strlit("兑为泽");
    reveal_strlit("天泽履");
    reveal_strlit("地天泰");
    reveal_strlit("山天大畜");
    reveal_strlit("水天需");
    reveal_strlit("风天小畜");
    reveal_strlit("雷天大壮");
    reveal_strlit("火天大有");
    reveal_strlit("泽天夬");
    reveal_strlit("乾为天");
}

/// The encoder only makes keys in `0..64`, so both hexagrams of every casting
/// have a name from the table.
pub proof fn lemma_cast_keys_are_named(lines: LineSequence)
    ensures
        0 <= original_key(lines@) < 64,
        0 <= changed_key(lines@) < 64,
        gua_name(original_key(lines@) as u8) != unknown_name(),
        gua_name(changed_key(lines@) as u8) != unknown_name(),
{
    lemma2_to64();
    lemma_key_bound(original_bits(lines@));
    lemma_key_bound(changed_bits(lines@));
    lemma_table_complete(original_key(lines@) as u8);
    lemma_table_complete(changed_key(lines@) as u8);
}

} // verus!
