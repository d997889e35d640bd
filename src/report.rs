use crate::gua::{get_gua_name, gua_name};
use crate::lines::{changed_key, original_key, LineSequence};
use crate::yao::YaoType;
use vstd::prelude::*;
use vstd::string::StringExecFns;

verus! {

/// The character of a decimal digit `d` (0 to 9).
pub open spec fn digit_char(d: int) -> char {
    if d == 0 {
        '0'
    } else if d == 1 {
        '1'
    } else if d == 2 {
        '2'
    } else if d == 3 {
        '3'
    } else if d == 4 {
        '4'
    } else if d == 5 {
        '5'
    } else if d == 6 {
        '6'
    } else if d == 7 {
        '7'
    } else if d == 8 {
        '8'
    } else {
        '9'
    }
}

/// `n` written in decimal, without leading zeros.
pub open spec fn decimal(n: nat) -> Seq<char>
    decreases n,
{
    if n < 10 {
        seq![digit_char(n as int)]
    } else {
        decimal(n / 10).push(digit_char((n % 10) as int))
    }
}

fn digit_str(d: u64) -> (r: &'static str)
    requires
        d < 10,
    ensures
        r@ == seq![digit_char(d as int)],
{
    proof {
        reveal_strlit("0");
        reveal_strlit("1");
        reveal_strlit("2");
        reveal_strlit("3");
        reveal_strlit("4");
        reveal_strlit("5");
        reveal_strlit("6");
        reveal_strlit("7");
        reveal_strlit("8");
        reveal_strlit("9");
    }
    match d {
        0 => "0",
        1 => "1",
        2 => "2",
        3 => "3",
        4 => "4",
        5 => "5",
        6 => "6",
        7 => "7",
        8 => "8",
        _ => "9",
    }
}

/// Appends `n` in decimal to `out`.
pub fn push_decimal(out: &mut String, n: u64)
    ensures
        final(out)@ == old(out)@ + decimal(n as nat),
    decreases n,
{
    if n >= 10 {
        push_decimal(out, n / 10);
    }
    out.append(digit_str(n % 10));
}

/// The mark drawn for a line: solid or broken, with the turning mark of an old line.
pub open spec fn glyph(y: YaoType) -> Seq<char> {
    match y {
        YaoType::OldYin => "——  —— X"@,
        YaoType::YoungYang => "——————  "@,
        YaoType::YoungYin => "——  ——  "@,
        YaoType::OldYang => "—————— O"@,
    }
}

/// The label of position `i`: the top line, the initial (bottom) line, or blank.
pub open spec fn position_label(i: int) -> Seq<char> {
    if i == 5 {
        "上"@
    } else if i == 0 {
        "初"@
    } else {
        "  "@
    }
}

/// The row that shows line `i`: its label, its number and its mark.
pub open spec fn line_row(i: int, y: YaoType) -> Seq<char> {
    position_label(i) + "爻("@ + decimal(y.spec_ordinal() as nat) + "): "@ + glyph(y) + "\n"@
}

/// The rows of lines `k - 1` down to 0, the highest first.
pub open spec fn rows_below(lines: Seq<YaoType>, k: int) -> Seq<char>
    decreases k,
{
    if k <= 0 {
        Seq::empty()
    } else {
        line_row(k - 1, lines[k - 1]) + rows_below(lines, k - 1)
    }
}

/// The numbers of lines `k - 1` down to 0, joined by `", "`.
pub open spec fn ordinals_below(lines: Seq<YaoType>, k: int) -> Seq<char>
    decreases k,
{
    if k <= 0 {
        Seq::empty()
    } else if k == 1 {
        decimal(lines[0].spec_ordinal() as nat)
    } else {
        decimal(lines[k - 1].spec_ordinal() as nat) + ", "@ + ordinals_below(lines, k - 1)
    }
}

/// The text of a casting: the seed, the six lines from the top down, their
/// numbers in that same order, and the names of the original and the changed
/// hexagram.
pub open spec fn report_text(seed: u64, lines: Seq<YaoType>) -> Seq<char> {
    "种子: "@ + decimal(seed as nat) + "\n\n"@ + rows_below(lines, 6) + "\n序列: ["@
        + ordinals_below(lines, 6) + "]\n"@ + "本卦: "@ + gua_name(original_key(lines) as u8)
        + "\n变卦: "@ + gua_name(changed_key(lines) as u8)
}

impl YaoType {
    /// The mark drawn for this line.
    pub fn glyph(&self) -> (r: &'static str)
        ensures
            r@ == glyph(*self),
    {
        match self {
            YaoType::OldYin => "——  —— X",
            YaoType::YoungYang => "——————  ",
            YaoType::YoungYin => "——  ——  ",
            YaoType::OldYang => "—————— O",
        }
    }
}

fn position_label_str(i: usize) -> (r: &'static str)
    ensures
        r@ == position_label(i as int),
{
    if i == 5 {
        "上"
    } else if i == 0 {
        "初"
    } else {
        "  "
    }
}

/// Renders the text of a casting from its seed and its lines.
pub fn render_report(seed: u64, lines: &LineSequence) -> (r: String)
    ensures
        r@ == report_text(seed, lines@),
{
    let (orig_bits, chg_bits) = lines.encode_keys();
    let mut result = String::new();
    result.append("种子: ");
    push_decimal(&mut result, seed);
    result.append("\n\n");
    let ghost head = result@;
    let mut k: usize = 6;
    while k > 0
        invariant
            k <= 6,
            lines@.len() == 6,
            result@ + rows_below(lines@, k as int) == head + rows_below(lines@, 6),
        decreases k,
    {
        let i = k - 1;
        let yao = lines.lines[i];
        let ghost before = result@;
        result.append(position_label_str(i));
        result.append("爻(");
        push_decimal(&mut result, yao.ordinal() as u64);
        result.append("): ");
        result.append(yao.glyph());
        result.append("\n");
        proof {
            assert(result@ =~= before + line_row(i as int, yao));
            assert(result@ + rows_below(lines@, i as int) =~= before + rows_below(lines@, k as int));
        }
        k = i;
    }
    assert(result@ =~= head + rows_below(lines@, 6));
    result.append("\n序列: [");
    let ghost head = result@;
    let mut k: usize = 6;
    while k > 0
        invariant
            k <= 6,
            lines@.len() == 6,
            result@ + ordinals_below(lines@, k as int) == head + ordinals_below(lines@, 6),
        decreases k,
    {
        let i = k - 1;
        let yao = lines.lines[i];
        let ghost before = result@;
        push_decimal(&mut result, yao.ordinal() as u64);
        if i > 0 {
            result.append(", ");
        }
        proof {
            assert(result@ + ordinals_below(lines@, i as int) =~= before + ordinals_below(
                lines@,
                k as int,
            ));
        }
        k = i;
    }
    assert(result@ =~= head + ordinals_below(lines@, 6));
    result.append("]\n");
    result.append("本卦: ");
    result.append(get_gua_name(orig_bits));
    result.append("\n变卦: ");
    result.append(get_gua_name(chg_bits));
    assert(result@ =~= report_text(seed, lines@));
    result
}

} // verus!
