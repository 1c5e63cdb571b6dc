//! Text that the program computes: numbers in decimal, clock faces, UTF-16.

use vstd::prelude::*;
use vstd::string::{StrSliceExecFns, StringExecFns};

verus! {

/// The decimal digit of a number below ten.
pub open spec fn digit(n: int) -> char {
    (0x30 + n) as char
}

/// A natural number in decimal, without leading zeros.
pub open spec fn decimal(n: nat) -> Seq<char>
    decreases n,
{
    if n < 10 {
        seq![digit(n as int)]
    } else {
        decimal(n / 10).push(digit((n % 10) as int))
    }
}

/// An integer in decimal, with a minus sign when it is negative.
pub open spec fn signed_decimal(n: int) -> Seq<char> {
    if n < 0 {
        seq!['-'] + decimal((-n) as nat)
    } else {
        decimal(n as nat)
    }
}

/// A natural number in decimal, filled up with a zero to two digits.
pub open spec fn two_digits(n: nat) -> Seq<char> {
    if n < 10 {
        seq!['0'] + decimal(n)
    } else {
        decimal(n)
    }
}

/// Minutes and seconds, both with two digits or more.
pub open spec fn clock_face(secs: nat) -> Seq<char> {
    two_digits(secs / 60) + seq![':'] + two_digits(secs % 60)
}

fn digit_text(n: u64) -> (s: &'static str)
    requires
        n < 10,
    ensures
        s@ == seq![digit(n as int)],
{
    proof {
        reveal_strlit("0");
        reveal_strlit("1");
        reveal_strlit("2");
        reveal_strlit("3");
        reveal_strlit("4");
        reveal_strlit("5");
        reveal_strlit("6");
        reveal_strlit("7");
        reveal_strlit("8");
        reveal_strlit("9");
    }
    match n {
        0 => "0",
        1 => "1",
        2 => "2",
        3 => "3",
        4 => "4",
        5 => "5",
        6 => "6",
        7 => "7",
        8 => "8",
        _ => "9",
    }
}

/// Writes `n` in decimal.
pub fn u64_text(n: u64) -> (s: String)
    ensures
        s@ == decimal(n as nat),
    decreases n,
{
    if n < 10 {
        digit_text(n).to_owned()
    } else {
        let mut s = u64_text(n / 10);
        s.append(digit_text(n % 10));
        s
    }
}

/// Writes `n` in decimal, with its sign when it is negative.
pub fn i32_text(n: i32) -> (s: String)
    ensures
        s@ == signed_decimal(n as int),
{
    if n < 0 {
        proof {
            reveal_strlit("-");
        }
        let mut s = "-".to_owned();
        let magnitude: u64 = (-(n as i64)) as u64;
        s.append(u64_text(magnitude).as_str());
        s
    } else {
        u64_text(n as u64)
    }
}

fn two_digit_text(n: u64) -> (s: String)
    ensures
        s@ == two_digits(n as nat),
{
    if n < 10 {
        proof {
            reveal_strlit("0");
        }
        let mut s = "0".to_owned();
        s.append(u64_text(n).as_str());
        s
    } else {
        u64_text(n)
    }
}

/// Writes a number of seconds as minutes and seconds.
pub fn clock_face_text(secs: u64) -> (s: String)
    ensures
        s@ == clock_face(secs as nat),
{
    proof {
        reveal_strlit(":");
    }
    let mut s = two_digit_text(secs / 60);
    s.append(":");
    s.append(two_digit_text(secs % 60).as_str());
    s
}

/// The UTF-16 code units of one character: itself, or a surrogate pair.
pub open spec fn utf16_units(c: char) -> Seq<u16> {
    let v = c as u32;
    if v < 0x10000 {
        seq![v as u16]
    } else {
        seq![(0xd800 + (v - 0x10000) / 0x400) as u16, (0xdc00 + (v - 0x10000) % 0x400) as u16]
    }
}

/// A text in UTF-16.
pub open spec fn utf16(text: Seq<char>) -> Seq<u16>
    decreases text.len(),
{
    if text.len() == 0 {
        seq![]
    } else {
        utf16(text.drop_last()) + utf16_units(text.last())
    }
}

/// `text` in UTF-16, closed by a zero.
pub fn wide(text: &str) -> (units: Vec<u16>)
    ensures
        units@ == utf16(text@).push(0),
{
    let mut units: Vec<u16> = Vec::new();
    let n: usize = text.unicode_len();
    let mut i: usize = 0;
    while i < n
        invariant
            i <= n,
            n == text@.len(),
            units@ == utf16(text@.take(i as int)),
        decreases n - i,
    {
        let c = text.get_char(i);
        let v: u32 = c as u32;
        proof {
            assert(text@.take(i + 1).drop_last() == text@.take(i as int));
        }
        if v < 0x10000 {
            units.push(v as u16);
        } else {
            units.push((0xd800 + (v - 0x10000) / 0x400) as u16);
            units.push((0xdc00 + (v - 0x10000) % 0x400) as u16);
        }
        assert(units@ == utf16(text@.take(i + 1)));
        i = i + 1;
    }
    assert(text@.take(n as int) == text@);
    units.push(0);
    units
}

/// A text without a null character has no zero in UTF-16, so the zero that
/// closes it is its only one.
pub proof fn law_closing_zero_is_the_only_one(text: Seq<char>)
    requires
        !text.contains('\0'),
    ensures
        !utf16(text).contains(0),
    decreases text.len(),
{
    if text.len() > 0 {
        let front = text.drop_last();
        assert(!front.contains('\0')) by {
            if front.contains('\0') {
                let i = choose|i: int| 0 <= i < front.len() && front[i] == '\0';
                assert(text[i] == '\0');
            }
        }
        law_closing_zero_is_the_only_one(front);
        assert(text.contains(text.last()));
        let c = text.last();
        vstd::utf8::char_is_scalar(c);
        if c as u32 == 0 {
            vstd::utf8::char_u32_cast(c, 0);
            assert(c == '\0');
        }
        assert forall|i: int| 0 <= i < utf16(text).len() implies utf16(text)[i] != 0 by {
            if i < utf16(front).len() {
                assert(utf16(front).contains(utf16(front)[i]));
                assert(utf16(text)[i] == utf16(front)[i]);
            } else {
                assert(utf16(text)[i] == utf16_units(text.last())[i - utf16(front).len()]);
            }
        }
    }
}

/// The number that a row of decimal digits stands for.
pub open spec fn value_of(digits: Seq<char>) -> int
    decreases digits.len(),
{
    if digits.len() == 0 {
        0
    } else {
        10 * value_of(digits.drop_last()) + (digits.last() as int - '0' as int)
    }
}

/// A number in decimal can be read back. It is made of digits, of which the
/// first is not a zero unless it is the only one.
pub proof fn law_decimal_reads_back(n: nat)
    ensures
        value_of(decimal(n)) == n,
        decimal(n).len() > 0,
        forall|i: int| 0 <= i < decimal(n).len() ==> '0' <= #[trigger] decimal(n)[i] <= '9',
        decimal(n).len() > 1 ==> decimal(n)[0] != '0',
        decimal(n).len() == 1 <==> n < 10,
        decimal(n).len() == 2 <==> 10 <= n < 100,
    decreases n,
{
    reveal_with_fuel(value_of, 2);
    if n >= 10 {
        law_decimal_reads_back(n / 10);
        assert(decimal(n).drop_last() =~= decimal(n / 10));
        if decimal(n / 10).len() == 1 {
            assert(decimal(n / 10)[0] != '0') by {
                assert(decimal(n / 10).drop_last() =~= Seq::empty());
                assert(value_of(decimal(n / 10)) == decimal(n / 10)[0] as int - '0' as int);
            }
        }
    } else {
        assert(decimal(n).drop_last() =~= Seq::empty());
    }
}

/// A negative number is a minus sign and the number without it; any other is
/// written without a sign.
pub proof fn law_sign(n: int)
    ensures
        n >= 0 ==> value_of(signed_decimal(n)) == n && signed_decimal(n)[0] != '-',
        n < 0 ==> signed_decimal(n)[0] == '-' && -value_of(signed_decimal(n).skip(1)) == n,
        n >= 0 ==> signed_decimal(n) == decimal(n as nat),
        n < 0 ==> signed_decimal(n).skip(1) == decimal((-n) as nat),
{
    if n >= 0 {
        law_decimal_reads_back(n as nat);
    } else {
        law_decimal_reads_back((-n) as nat);
        assert(signed_decimal(n).skip(1) =~= decimal((-n) as nat));
    }
}

/// A number filled up to two digits has two of them or, from a hundred on, as
/// many as it needs, and is still the same number.
pub proof fn law_two_digits(n: nat)
    ensures
        value_of(two_digits(n)) == n,
        n < 100 ==> two_digits(n).len() == 2,
        n >= 100 ==> two_digits(n) == decimal(n),
        forall|i: int| 0 <= i < two_digits(n).len() ==> '0' <= #[trigger] two_digits(n)[i] <= '9',
{
    reveal_with_fuel(value_of, 3);
    law_decimal_reads_back(n);
    if n < 10 {
        assert(two_digits(n).drop_last() =~= seq!['0']);
        assert(seq!['0'].drop_last() =~= Seq::empty());
        assert(decimal(n).drop_last() =~= Seq::empty());
    }
}

/// A clock face shows minutes and seconds: two digits for the seconds below
/// sixty, a colon before them, and at least two digits for the minutes.
pub proof fn law_clock_face(secs: nat)
    ensures
        ({
            let face = clock_face(secs);
            let n = face.len() - 3;
            &&& n >= 2
            &&& secs < 6000 ==> n == 2
            &&& face[n] == ':'
            &&& 60 * value_of(face.take(n)) + value_of(face.skip(n + 1)) == secs
            &&& 0 <= value_of(face.skip(n + 1)) < 60
        }),
{
    let face = clock_face(secs);
    let n = face.len() - 3;
    law_two_digits(secs / 60);
    law_two_digits(secs % 60);
    law_decimal_reads_back(secs / 60);
    assert(face.take(n) =~= two_digits(secs / 60));
    assert(face.skip(n + 1) =~= two_digits(secs % 60));
}

/// The text that a row of UTF-16 code units stands for.
pub open spec fn utf16_text(units: Seq<u16>) -> Seq<char>
    decreases units.len(),
{
    if units.len() == 0 {
        seq![]
    } else if units.len() > 1 && 0xdc00 <= units.last() < 0xe000 {
        let high = units[units.len() - 2] - 0xd800;
        let low = units.last() - 0xdc00;
        utf16_text(units.take(units.len() - 2)).push((0x10000 + high * 0x400 + low) as char)
    } else {
        utf16_text(units.drop_last()).push(units.last() as char)
    }
}

/// A text in UTF-16 can be read back.
pub proof fn law_utf16_reads_back(text: Seq<char>)
    ensures
        utf16_text(utf16(text)) == text,
    decreases text.len(),
{
    let units = utf16(text);
    if text.len() > 0 {
        let front = text.drop_last();
        let c = text.last();
        let v = c as u32;
        vstd::utf8::char_is_scalar(c);
        vstd::utf8::char_u32_cast(c, v);
        law_utf16_reads_back(front);
        if v < 0x10000 {
            assert(units.last() == v as u16);
            assert(units.drop_last() =~= utf16(front));
            assert(units.last() as u32 == v);
            assert(units.last() as char == c);
        } else {
            let w = v - 0x10000;
            assert(units.take(units.len() - 2) =~= utf16(front));
            assert(units[units.len() - 2] - 0xd800 == w / 0x400);
            assert(units.last() - 0xdc00 == w % 0x400);
            assert(0x10000 + (w / 0x400) * 0x400 + w % 0x400 == v);
        }
        assert(front.push(c) =~= text);
    }
}

} // verus!
