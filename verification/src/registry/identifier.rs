//! Identifiers for new records. An identifier is drawn at random. Should a
//! record have it already, which chance all but excludes, the first
//! identifier of a fixed series that no record has is taken in its place, so
//! that a new record never takes the place of an older one.

use crate::outside::{is_lower_hex, is_random_id_text};
use vstd::prelude::*;
use vstd::string::StringExecFns;

verus! {

/// The digit of base 16 for a value below 16, in lower case.
pub open spec fn hex_char(v: int) -> char {
    if v == 0 {
        '0'
    } else if v == 1 {
        '1'
    } else if v == 2 {
        '2'
    } else if v == 3 {
        '3'
    } else if v == 4 {
        '4'
    } else if v == 5 {
        '5'
    } else if v == 6 {
        '6'
    } else if v == 7 {
        '7'
    } else if v == 8 {
        '8'
    } else if v == 9 {
        '9'
    } else if v == 10 {
        'a'
    } else if v == 11 {
        'b'
    } else if v == 12 {
        'c'
    } else if v == 13 {
        'd'
    } else if v == 14 {
        'e'
    } else {
        'f'
    }
}

/// A number without its last digit of base 16.
pub open spec fn upper(x: int) -> int {
    x / 16
}

/// A number below 2^32 as eight digits of base 16, the highest first.
#[verifier::opaque]
pub open spec fn hex8(x: int) -> Seq<char> {
    seq![
        hex_char(upper(upper(upper(upper(upper(upper(upper(x))))))) % 16),
        hex_char(upper(upper(upper(upper(upper(upper(x)))))) % 16),
        hex_char(upper(upper(upper(upper(upper(x))))) % 16),
        hex_char(upper(upper(upper(upper(x)))) % 16),
        hex_char(upper(upper(upper(x))) % 16),
        hex_char(upper(upper(x)) % 16),
        hex_char(upper(x) % 16),
        hex_char(x % 16),
    ]
}

/// What stands between the two halves of the number in an identifier of the
/// series: the hyphens, the mark of a random identifier, and zeros.
pub open spec fn serial_middle() -> Seq<char> {
    seq![
        '-', '0', '0', '0', '0', '-', '4', '0', '0', '0', '-', '8', '0', '0', '0', '-', '0', '0',
        '0', '0',
    ]
}

/// The identifier with the number `j` in the series: the number's upper half
/// in front, its lower half at the end.
pub open spec fn serial_id_text(j: int) -> Seq<char> {
    hex8(j / 0x1_0000_0000) + serial_middle() + hex8(j % 0x1_0000_0000)
}

/// The digits of base 16 are digits of base 16, and different values have
/// different digits.
pub proof fn lemma_hex_char(v: int, w: int)
    requires
        0 <= v < 16,
        0 <= w < 16,
    ensures
        is_lower_hex(hex_char(v)),
        hex_char(v) == hex_char(w) ==> v == w,
{
}

/// Eight digits are eight characters, each a digit of base 16.
pub proof fn lemma_hex8_form(x: int)
    requires
        0 <= x,
    ensures
        hex8(x).len() == 8,
        forall|i: int| 0 <= i < 8 ==> is_lower_hex(#[trigger] hex8(x)[i]),
{
    reveal(hex8);
    let x1 = upper(x);
    let x2 = upper(x1);
    let x3 = upper(x2);
    let x4 = upper(x3);
    let x5 = upper(x4);
    let x6 = upper(x5);
    let x7 = upper(x6);
    lemma_hex_char(x % 16, 0);
    lemma_hex_char(x1 % 16, 0);
    lemma_hex_char(x2 % 16, 0);
    lemma_hex_char(x3 % 16, 0);
    lemma_hex_char(x4 % 16, 0);
    lemma_hex_char(x5 % 16, 0);
    lemma_hex_char(x6 % 16, 0);
    lemma_hex_char(x7 % 16, 0);
}

/// Different numbers below 2^32 have different digits.
pub proof fn lemma_hex8_injective(x: int, y: int)
    requires
        0 <= x < 0x1_0000_0000,
        0 <= y < 0x1_0000_0000,
        hex8(x) == hex8(y),
    ensures
        x == y,
{
    let x1 = upper(x);
    let x2 = upper(x1);
    let x3 = upper(x2);
    let x4 = upper(x3);
    let x5 = upper(x4);
    let x6 = upper(x5);
    let x7 = upper(x6);
    let y1 = upper(y);
    let y2 = upper(y1);
    let y3 = upper(y2);
    let y4 = upper(y3);
    let y5 = upper(y4);
    let y6 = upper(y5);
    let y7 = upper(y6);
    assert(x7 < 16 && y7 < 16);
    assert(x7 % 16 == y7 % 16 && x6 % 16 == y6 % 16 && x5 % 16 == y5 % 16 && x4 % 16 == y4 % 16
        && x3 % 16 == y3 % 16 && x2 % 16 == y2 % 16 && x1 % 16 == y1 % 16 && x % 16 == y % 16) by {
        reveal(hex8);
        let a = hex8(x);
        let b = hex8(y);
        assert(a[0] == b[0] && a[1] == b[1] && a[2] == b[2] && a[3] == b[3] && a[4] == b[4]
            && a[5] == b[5] && a[6] == b[6] && a[7] == b[7]);
        lemma_hex_char(x7 % 16, y7 % 16);
        lemma_hex_char(x6 % 16, y6 % 16);
        lemma_hex_char(x5 % 16, y5 % 16);
        lemma_hex_char(x4 % 16, y4 % 16);
        lemma_hex_char(x3 % 16, y3 % 16);
        lemma_hex_char(x2 % 16, y2 % 16);
        lemma_hex_char(x1 % 16, y1 % 16);
        lemma_hex_char(x % 16, y % 16);
    }
    assert(x7 == y7);
    assert(x6 == y6);
    assert(x5 == y5);
    assert(x4 == y4);
    assert(x3 == y3);
    assert(x2 == y2);
    assert(x1 == y1);
}

/// Every identifier of the series has the form of a random identifier.
pub proof fn lemma_serial_id_form(j: int)
    requires
        0 <= j < 0x1_0000_0000_0000_0000,
    ensures
        is_random_id_text(serial_id_text(j)),
{
    let hi = j / 0x1_0000_0000;
    let lo = j % 0x1_0000_0000;
    let s = serial_id_text(j);
    lemma_hex8_form(hi);
    lemma_hex8_form(lo);
    assert(s.len() == 36);
    assert forall|i: int| 0 <= i < 36 implies if i == 8 || i == 13 || i == 18 || i == 23 {
        #[trigger] s[i] == '-'
    } else {
        is_lower_hex(s[i])
    } by {
        if i < 8 {
            assert(s[i] == hex8(hi)[i]);
        } else if i < 28 {
            assert(s[i] == serial_middle()[i - 8]);
        } else {
            assert(s[i] == hex8(lo)[i - 28]);
        }
    }
    assert(s[14] == serial_middle()[6]);
}

/// Texts made of a front, a middle and an end of the same lengths are equal
/// only where their fronts and their ends are.
proof fn lemma_same_parts(a: Seq<char>, m: Seq<char>, b: Seq<char>, c: Seq<char>, d: Seq<char>)
    requires
        a.len() == c.len(),
        b.len() == d.len(),
        a + m + b == c + m + d,
    ensures
        a == c,
        b == d,
{
    let s = a + m + b;
    let t = c + m + d;
    assert(a =~= s.subrange(0, a.len() as int));
    assert(c =~= t.subrange(0, a.len() as int));
    assert(b =~= s.subrange((a.len() + m.len()) as int, s.len() as int));
    assert(d =~= t.subrange((a.len() + m.len()) as int, s.len() as int));
}

/// Different numbers have different identifiers in the series.
pub proof fn lemma_serial_id_injective(j: int, k: int)
    requires
        0 <= j < 0x1_0000_0000_0000_0000,
        0 <= k < 0x1_0000_0000_0000_0000,
        serial_id_text(j) == serial_id_text(k),
    ensures
        j == k,
{
    let jh = j / 0x1_0000_0000;
    let jl = j % 0x1_0000_0000;
    let kh = k / 0x1_0000_0000;
    let kl = k % 0x1_0000_0000;
    lemma_hex8_form(jh);
    lemma_hex8_form(jl);
    lemma_hex8_form(kh);
    lemma_hex8_form(kl);
    lemma_same_parts(hex8(jh), serial_middle(), hex8(jl), hex8(kh), hex8(kl));
    lemma_hex8_injective(jh, kh);
    lemma_hex8_injective(jl, kl);
}

/// The digit of base 16 for a value below 16, as text.
fn hex_digit(v: u64) -> (r: &'static str)
    requires
        v < 16,
    ensures
        r@ == seq![hex_char(v as int)],
{
    proof {
        reveal_strlit("0");
        reveal_strlit("1");
        reveal_strlit("2");
        reveal_strlit("3");
        reveal_strlit("4");
        reveal_strlit("5");
        reveal_strlit("6");
        reveal_strlit("7");
        reveal_strlit("8");
        reveal_strlit("9");
        reveal_strlit("a");
        reveal_strlit("b");
        reveal_strlit("c");
        reveal_strlit("d");
        reveal_strlit("e");
        reveal_strlit("f");
    }
    let r = if v == 0 {
        "0"
    } else if v == 1 {
        "1"
    } else if v == 2 {
        "2"
    } else if v == 3 {
        "3"
    } else if v == 4 {
        "4"
    } else if v == 5 {
        "5"
    } else if v == 6 {
        "6"
    } else if v == 7 {
        "7"
    } else if v == 8 {
        "8"
    } else if v == 9 {
        "9"
    } else if v == 10 {
        "a"
    } else if v == 11 {
        "b"
    } else if v == 12 {
        "c"
    } else if v == 13 {
        "d"
    } else if v == 14 {
        "e"
    } else {
        "f"
    };
    assert(r@ =~= seq![hex_char(v as int)]);
    r
}

/// Writes a number below 2^32 behind `s`, as eight digits of base 16.
fn push_hex8(s: &mut String, x: u64)
    requires
        x < 0x1_0000_0000,
    ensures
        final(s)@ == old(s)@ + hex8(x as int),
{
    let x1 = x / 16;
    let x2 = x1 / 16;
    let x3 = x2 / 16;
    let x4 = x3 / 16;
    let x5 = x4 / 16;
    let x6 = x5 / 16;
    let x7 = x6 / 16;
    s.append(hex_digit(x7 % 16));
    s.append(hex_digit(x6 % 16));
    s.append(hex_digit(x5 % 16));
    s.append(hex_digit(x4 % 16));
    s.append(hex_digit(x3 % 16));
    s.append(hex_digit(x2 % 16));
    s.append(hex_digit(x1 % 16));
    s.append(hex_digit(x % 16));
    proof {
        reveal(hex8);
        assert(s@ =~= old(s)@ + hex8(x as int));
    }
}

/// The identifier with the number `j` in the series.
pub fn serial_id(j: u64) -> (r: String)
    ensures
        r@ == serial_id_text(j as int),
        is_random_id_text(r@),
{
    let mut s = String::new();
    push_hex8(&mut s, j / 0x1_0000_0000);
    proof {
        reveal_strlit("-0000-4000-8000-0000");
        assert("-0000-4000-8000-0000"@ =~= serial_middle());
    }
    s.append("-0000-4000-8000-0000");
    push_hex8(&mut s, j % 0x1_0000_0000);
    proof {
        assert(s@ =~= serial_id_text(j as int));
        lemma_serial_id_form(j as int);
    }
    s
}

} // verus!
