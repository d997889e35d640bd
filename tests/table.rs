use rustiching::get_gua_name;

const NAMES: [&str; 64] = [
    "坤为地",
    "山地剥",
    "水地比",
    "风地观",
    "雷地豫",
    "火地晋",
    "泽地萃",
    "天地否",
    "地山谦",
    "艮为山",
    "水山蹇",
    "风山渐",
    "雷山小过",
    "火山旅",
    "泽山咸",
    "天山遁",
    "地水师",
    "山水蒙",
    "坎为水",
    "风水涣",
    "雷水解",
    "火水未济",
    "泽水困",
    "天水讼",
    "地风升",
    "山风蛊",
    "水风井",
    "巽为风",
    "雷风恒",
    "泽火革",
    "泽风大过",
    "天风姤",
    "地雷复",
    "山雷颐",
    "水雷屯",
    "风雷益",
    "震为雷",
    "火雷噬嗑",
    "泽雷随",
    "天雷无妄",
    "地火明夷",
    "山火贲",
    "水火既济",
    "风火家人",
    "雷火丰",
    "离为火",
    "火风鼎",
    "天火同人",
    "地泽临",
    "山泽损",
    "水泽节",
    "风泽中孚",
    "雷泽归妹",
    "火泽睽",
    "兑为泽",
    "天泽履",
    "地天泰",
    "山天大畜",
    "水天需",
    "风天小畜",
    "雷天大壮",
    "火天大有",
    "泽天夬",
    "乾为天",
];

#[test]
fn every_key_has_its_name() {
    for key in 0..64u8 {
        assert_eq!(get_gua_name(key), NAMES[key as usize]);
    }
}

#[test]
fn no_key_below_64_is_unknown() {
    for key in 0..64u8 {
        assert_ne!(get_gua_name(key), "未知");
    }
}

#[test]
fn keys_outside_table_are_unknown() {
    assert_eq!(get_gua_name(64), "未知");
    assert_eq!(get_gua_name(100), "未知");
    assert_eq!(get_gua_name(255), "未知");
}

#[test]
fn named_corner_keys() {
    assert_eq!(get_gua_name(0), "坤为地");
    assert_eq!(get_gua_name(63), "乾为天");
    assert_eq!(get_gua_name(29), "泽火革");
    assert_eq!(get_gua_name(46), "火风鼎");
}
