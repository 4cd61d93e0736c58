//! Text building: decimal numbers, zero padding, comparison and UTF-16.

use vstd::prelude::*;
use vstd::string::*;

verus! {

/// The decimal digit for `d`.
pub open spec fn digit(d: nat) -> char
    recommends
        d < 10,
{
    (('0' as nat) + d) as char
}

/// `n` in decimal, without sign or leading zeros.
pub open spec fn decimal(n: nat) -> Seq<char>
    decreases n,
{
    if n < 10 {
        seq![digit(n)]
    } else {
        decimal(n / 10).push(digit(n % 10))
    }
}

/// `n` in decimal with zeros in front, at least `width` characters long.
pub open spec fn zero_padded(n: nat, width: nat) -> Seq<char> {
    let digits = decimal(n);
    if digits.len() < width {
        Seq::new((width - digits.len()) as nat, |i: int| '0') + digits
    } else {
        digits
    }
}

/// The texts of a sequence of strings.
pub open spec fn texts(lines: Seq<String>) -> Seq<Seq<char>> {
    lines.map_values(|line: String| line@)
}

/// One text where `condition` holds, none otherwise.
pub open spec fn text_if(condition: bool, text: Seq<char>) -> Seq<Seq<char>> {
    if condition {
        seq![text]
    } else {
        seq![]
    }
}

/// The text of a string that may be absent.
pub open spec fn optional_text(line: Option<String>) -> Option<Seq<char>> {
    match line {
        Some(text) => Some(text@),
        None => None,
    }
}

/// The UTF-16 code units of one character: itself in the basic plane, a
/// surrogate pair above it.
pub open spec fn utf16_units(c: char) -> Seq<u16> {
    let code = c as int;
    if code < 0x1_0000 {
        seq![code as u16]
    } else {
        seq![
            (0xd800 + (code - 0x1_0000) / 0x400) as u16,
            (0xdc00 + (code - 0x1_0000) % 0x400) as u16,
        ]
    }
}

/// The UTF-16 encoding of a text.
pub open spec fn utf16(s: Seq<char>) -> Seq<u16>
    decreases s.len(),
{
    if s.len() == 0 {
        seq![]
    } else {
        utf16(s.drop_last()) + utf16_units(s.last())
    }
}

/// A link as the messages write it.
pub open spec fn link_text(gen: u32, width: u32) -> Seq<char> {
    "Gen"@ + decimal(gen as nat) + " x"@ + decimal(width as nat)
}

fn digit_text(d: u64) -> (res: &'static str)
    requires
        d < 10,
    ensures
        res@ == seq![digit(d as nat)],
{
    proof {
        reveal_strlit("0");
        reveal_strlit("1");
        reveal_strlit("2");
        reveal_strlit("3");
        reveal_strlit("4");
        reveal_strlit("5");
        reveal_strlit("6");
        reveal_strlit("7");
        reveal_strlit("8");
        reveal_strlit("9");
    }
    if d == 0 {
        "0"
    } else if d == 1 {
        "1"
    } else if d == 2 {
        "2"
    } else if d == 3 {
        "3"
    } else if d == 4 {
        "4"
    } else if d == 5 {
        "5"
    } else if d == 6 {
        "6"
    } else if d == 7 {
        "7"
    } else if d == 8 {
        "8"
    } else {
        "9"
    }
}

/// Appends `n` in decimal.
pub fn push_decimal(out: &mut String, n: u64)
    ensures
        final(out)@ == old(out)@ + decimal(n as nat),
    decreases n,
{
    if n >= 10 {
        push_decimal(out, n / 10);
    }
    out.append(digit_text(n % 10));
}

/// Appends a link as the messages write it.
pub fn push_link(out: &mut String, gen: u32, width: u32)
    ensures
        final(out)@ == old(out)@ + link_text(gen, width),
{
    out.append("Gen");
    push_decimal(out, gen as u64);
    out.append(" x");
    push_decimal(out, width as u64);
}

/// Whether two texts hold the same characters.
pub fn same_text(a: &str, b: &str) -> (res: bool)
    ensures
        res == (a@ == b@),
{
    a.to_owned() == b.to_owned()
}

/// Encodes a text in UTF-16.
pub fn encode_utf16(s: &str) -> (res: Vec<u16>)
    ensures
        res@ == utf16(s@),
{
    let n: usize = s.unicode_len();
    let mut out: Vec<u16> = Vec::new();
    let mut i: usize = 0;
    while i < n
        invariant
            i <= n,
            n == s@.len(),
            out@ == utf16(s@.take(i as int)),
        decreases n - i,
    {
        let c: char = s.get_char(i);
        let code: u32 = c as u32;
        if code < 0x1_0000 {
            out.push(code as u16);
        } else {
            let rest: u32 = code - 0x1_0000;
            out.push((0xd800 + rest / 0x400) as u16);
            out.push((0xdc00 + rest % 0x400) as u16);
        }
        assert(s@.take(i + 1).drop_last() == s@.take(i as int));
        i += 1;
    }
    assert(s@.take(n as int) == s@);
    out
}

/// The number that a row of decimal digits stands for.
spec fn digits_value(s: Seq<char>) -> int
    decreases s.len(),
{
    if s.len() == 0 {
        0
    } else {
        digits_value(s.drop_last()) * 10 + (s.last() as int - '0' as int)
    }
}

proof fn lemma_decimal_value(n: nat)
    ensures
        digits_value(decimal(n)) == n,
        decimal(n).len() >= 1,
    decreases n,
{
    if n < 10 {
        assert(decimal(n).drop_last() == Seq::<char>::empty());
        assert(digits_value(Seq::<char>::empty()) == 0);
    } else {
        lemma_decimal_value(n / 10);
        assert(decimal(n).drop_last() == decimal(n / 10));
    }
}

proof fn lemma_leading_zeros_value(zeros: nat, s: Seq<char>)
    ensures
        digits_value(Seq::new(zeros, |i: int| '0') + s) == digits_value(s),
    decreases zeros + s.len(),
{
    let row = Seq::new(zeros, |i: int| '0') + s;
    if s.len() > 0 {
        assert(row.drop_last() == Seq::new(zeros, |i: int| '0') + s.drop_last());
        lemma_leading_zeros_value(zeros, s.drop_last());
    } else if zeros > 0 {
        let fewer = (zeros - 1) as nat;
        assert(row.drop_last() == Seq::new(fewer, |i: int| '0') + s);
        lemma_leading_zeros_value(fewer, s);
    } else {
        assert(row == s);
    }
}

/// Different numbers have different texts, with or without padding.
pub proof fn lemma_padded_text_tells_the_number(a: nat, b: nat, width: nat)
    ensures
        zero_padded(a, width) == zero_padded(b, width) ==> a == b,
        decimal(a) == decimal(b) ==> a == b,
{
    lemma_decimal_value(a);
    lemma_decimal_value(b);
    if decimal(a).len() < width {
        lemma_leading_zeros_value((width - decimal(a).len()) as nat, decimal(a));
    }
    if decimal(b).len() < width {
        lemma_leading_zeros_value((width - decimal(b).len()) as nat, decimal(b));
    }
}

/// A text never starts with a sign, and is as wide as it was padded to where
/// the number fits.
pub proof fn lemma_padded_width(n: nat, width: nat)
    ensures
        zero_padded(n, width).len() >= width,
        zero_padded(n, width).len() >= 1,
        zero_padded(n, width)[0] != '-' && zero_padded(n, width)[0] != '+',
        decimal(n)[0] != '-' && decimal(n)[0] != '+',
        n < 100 && width == 2 ==> zero_padded(n, width).len() == 2,
        n < 1000 && width == 3 ==> zero_padded(n, width).len() == 3,
        n < 10000 && width == 4 ==> zero_padded(n, width).len() == 4,
{
    reveal_with_fuel(decimal, 4);
    lemma_decimal_start(n);
}

proof fn lemma_decimal_start(n: nat)
    ensures
        decimal(n).len() >= 1,
        decimal(n)[0] != '-' && decimal(n)[0] != '+',
    decreases n,
{
    if n >= 10 {
        lemma_decimal_start(n / 10);
    }
}

/// Appending a digit to a number appends its character to the text, and a
/// number of one digit is that character: the text is the number in base ten.
pub proof fn law_decimal_appends_digits(n: nat, d: nat)
    requires
        d < 10,
    ensures
        decimal(d).len() == 1,
        decimal(d)[0] as int == '0' as int + d,
        n > 0 ==> decimal(10 * n + d).drop_last() == decimal(n),
        n > 0 ==> decimal(10 * n + d).last() as int == '0' as int + d,
{
    if n > 0 {
        assert((10 * n + d) / 10 == n);
        assert((10 * n + d) % 10 == d);
    }
}

/// Padding puts zeros in front, as many as the width asks for, and takes
/// nothing away.
pub proof fn law_padding_puts_zeros_in_front(n: nat, width: nat)
    ensures
        decimal(n).len() >= width ==> zero_padded(n, width) == decimal(n),
        decimal(n).len() < width ==> zero_padded(n, width).len() == width,
        zero_padded(n, width).skip(zero_padded(n, width).len() - decimal(n).len()) == decimal(n),
        forall|i: int|
            0 <= i < zero_padded(n, width).len() - decimal(n).len() ==> #[trigger] zero_padded(
                n,
                width,
            )[i] == '0',
{
}

/// A decimal number is made of digits, and of one at least.
proof fn lemma_decimal_digits(n: nat)
    ensures
        decimal(n).len() >= 1,
        forall|i: int| 0 <= i < decimal(n).len() ==> '0' <= #[trigger] decimal(n)[i] <= '9',
    decreases n,
{
    if n >= 10 {
        lemma_decimal_digits(n / 10);
    }
}

/// A number ends where a text goes on with something else than a digit.
pub proof fn lemma_number_ends(a: nat, b: nat, after_a: Seq<char>, after_b: Seq<char>)
    requires
        decimal(a) + after_a == decimal(b) + after_b,
        after_a.len() > 0 ==> !('0' <= after_a[0] <= '9'),
        after_b.len() > 0 ==> !('0' <= after_b[0] <= '9'),
    ensures
        a == b,
        after_a == after_b,
{
    lemma_decimal_digits(a);
    lemma_decimal_digits(b);
    let da = decimal(a);
    let db = decimal(b);
    let whole = da + after_a;
    if da.len() < db.len() {
        assert(whole[da.len() as int] == after_a[0]);
        assert(whole[da.len() as int] == db[da.len() as int]);
    } else if db.len() < da.len() {
        assert(whole[db.len() as int] == da[db.len() as int]);
        assert((db + after_b)[db.len() as int] == after_b[0]);
    }
    assert(da == whole.take(da.len() as int));
    assert(db == (db + after_b).take(db.len() as int));
    assert(after_a == whole.skip(da.len() as int));
    assert(after_b == (db + after_b).skip(db.len() as int));
    lemma_padded_text_tells_the_number(a, b, 0);
}

/// What follows the same start is the same.
pub proof fn lemma_same_start(start: Seq<char>, a: Seq<char>, b: Seq<char>)
    requires
        start + a == start + b,
    ensures
        a == b,
{
    assert(a == (start + a).skip(start.len() as int));
    assert(b == (start + b).skip(start.len() as int));
}

/// A link is written as `Gen`, its speed, ` x` and its width, and two links
/// that differ in speed or width never read the same.
pub proof fn law_link_text_tells_the_link(gen: u32, width: u32, other_gen: u32, other_width: u32)
    ensures
        ({
            let text = link_text(gen, width);
            let speed = decimal(gen as nat);
            let end = 3 + speed.len() as int;
            &&& text.len() == end + 2 + decimal(width as nat).len()
            &&& text.take(3) == "Gen"@
            &&& text.subrange(3, end) == speed
            &&& text.subrange(end, end + 2) == " x"@
            &&& text.skip(end + 2) == decimal(width as nat)
        }),
        link_text(gen, width) == link_text(other_gen, other_width) ==> gen == other_gen && width
            == other_width,
{
    reveal_strlit("Gen");
    reveal_strlit(" x");
    let rest = " x"@ + decimal(width as nat);
    let other_rest = " x"@ + decimal(other_width as nat);
    assert(link_text(gen, width) == "Gen"@ + (decimal(gen as nat) + rest));
    assert(link_text(other_gen, other_width) == "Gen"@ + (decimal(other_gen as nat) + other_rest));
    if link_text(gen, width) == link_text(other_gen, other_width) {
        lemma_same_start("Gen"@, decimal(gen as nat) + rest, decimal(other_gen as nat) + other_rest);
        lemma_number_ends(gen as nat, other_gen as nat, rest, other_rest);
        lemma_same_start(" x"@, decimal(width as nat), decimal(other_width as nat));
        lemma_padded_text_tells_the_number(width as nat, other_width as nat, 0);
    }
}

/// A character is told by its units: by itself where it is one unit, and
/// otherwise by a high and a low surrogate with ten bits each of what lies
/// above the basic plane.
pub proof fn law_utf16_units_tell_the_character(c: char)
    ensures
        ({
            let units = utf16_units(c);
            if (c as int) < 0x1_0000 {
                units.len() == 1 && units[0] == c as int
            } else {
                &&& units.len() == 2
                &&& 0xd800 <= units[0] < 0xdc00
                &&& 0xdc00 <= units[1] < 0xe000
                &&& 0x1_0000 + (units[0] - 0xd800) * 0x400 + (units[1] - 0xdc00) == c as int
            }
        }),
{
}

/// A text is encoded character by character: one part after the other, and
/// nothing in between.
pub proof fn law_utf16_goes_by_characters(a: Seq<char>, b: Seq<char>, c: char)
    ensures
        utf16(a + b) == utf16(a) + utf16(b),
        utf16(seq![c]) == utf16_units(c),
        utf16(seq![]).len() == 0,
    decreases b.len(),
{
    reveal_with_fuel(utf16, 2);
    assert(seq![c].drop_last() == Seq::<char>::empty());
    if b.len() == 0 {
        assert(a + b == a);
    } else {
        assert((a + b).drop_last() == a + b.drop_last());
        law_utf16_goes_by_characters(a, b.drop_last(), c);
    }
}

/// The texts of some strings are those of each of them, in their order.
pub proof fn law_texts_are_those_of_each(lines: Seq<String>, i: int)
    requires
        0 <= i < lines.len(),
    ensures
        texts(lines).len() == lines.len(),
        texts(lines)[i] == lines[i]@,
        optional_text(Some(lines[i])) == Some(lines[i]@),
        optional_text(None) is None,
{
}

} // verus!
