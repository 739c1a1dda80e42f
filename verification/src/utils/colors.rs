//! Colours written in hexadecimal.

use vstd::prelude::*;

verus! {

/// Whether `c` is a hexadecimal digit, in either case.
pub open spec fn is_hex_digit(c: char) -> bool {
    ('0' <= c && c <= '9') || ('a' <= c && c <= 'f') || ('A' <= c && c <= 'F')
}

/// The value of a hexadecimal digit.
pub open spec fn hex_digit_value(c: char) -> int {
    if '0' <= c && c <= '9' {
        c as int - '0' as int
    } else if 'a' <= c && c <= 'f' {
        c as int - 'a' as int + 10
    } else {
        c as int - 'A' as int + 10
    }
}

/// The number that hexadecimal digits write.
pub open spec fn hex_value(digits: Seq<char>) -> int
    decreases digits.len(),
{
    if digits.len() == 0 {
        0
    } else {
        hex_value(digits.drop_last()) * 16 + hex_digit_value(digits.last())
    }
}

/// The characters that are read as a number: of a text of four characters,
/// such as `#fa0`, the last three, each doubled; of any other text, all.
pub open spec fn color_digits(hex: Seq<char>) -> Seq<char> {
    if hex.len() == 4 {
        seq![hex[1], hex[1], hex[2], hex[2], hex[3], hex[3]]
    } else {
        hex
    }
}

/// The digits of a number that may begin with a plus sign.
pub open spec fn unsigned_digits(text: Seq<char>) -> Seq<char> {
    if text.len() > 0 && text[0] == '+' {
        text.skip(1)
    } else {
        text
    }
}

/// Whether `hex` writes a colour: what is read of it is at least one
/// hexadecimal digit, after a plus sign or none, and the number is below
/// 2^32.
pub open spec fn is_hex_color(hex: Seq<char>) -> bool {
    let digits = unsigned_digits(color_digits(hex));
    &&& digits.len() > 0
    &&& forall|i: int| 0 <= i < digits.len() ==> is_hex_digit(#[trigger] digits[i])
    &&& hex_value(digits) <= u32::MAX
}

/// The number that `hex` writes, where it writes a colour.
pub open spec fn color_value(hex: Seq<char>) -> int {
    hex_value(unsigned_digits(color_digits(hex)))
}

/// The parts of a colour: red, green and blue, each from 0 to 255.
pub open spec fn rgb_of(value: u32) -> (u32, u32, u32) {
    ((value >> 16) & 255, (value >> 8) & 255, value & 255)
}

/// The number that a beginning of the digits writes is no larger than the
/// number that all of them write.
proof fn lemma_hex_value_prefix(digits: Seq<char>, n: int)
    requires
        0 <= n <= digits.len(),
        forall|i: int| 0 <= i < digits.len() ==> is_hex_digit(#[trigger] digits[i]),
    ensures
        0 <= hex_value(digits.take(n)) <= hex_value(digits),
    decreases digits.len() - n,
{
    if n == digits.len() {
        assert(digits.take(n) =~= digits);
        lemma_hex_value_nonnegative(digits);
    } else {
        lemma_hex_value_prefix(digits, n + 1);
        assert(digits.take(n + 1).drop_last() =~= digits.take(n));
        assert(is_hex_digit(digits[n]));
        lemma_hex_value_nonnegative(digits.take(n));
    }
}

proof fn lemma_hex_value_nonnegative(digits: Seq<char>)
    requires
        forall|i: int| 0 <= i < digits.len() ==> is_hex_digit(#[trigger] digits[i]),
    ensures
        0 <= hex_value(digits),
    decreases digits.len(),
{
    if digits.len() > 0 {
        lemma_hex_value_nonnegative(digits.drop_last());
        assert(is_hex_digit(digits[digits.len() - 1]));
    }
}

/// The value of `c` if it is a hexadecimal digit.
fn hex_digit(c: char) -> (value: Option<u32>)
    ensures
        match value {
            Some(v) => is_hex_digit(c) && v == hex_digit_value(c),
            None => !is_hex_digit(c),
        },
{
    if '0' <= c && c <= '9' {
        Some(c as u32 - '0' as u32)
    } else if 'a' <= c && c <= 'f' {
        Some(c as u32 - 'a' as u32 + 10)
    } else if 'A' <= c && c <= 'F' {
        Some(c as u32 - 'A' as u32 + 10)
    } else {
        None
    }
}

/// The number that `text` writes in hexadecimal, after a plus sign or none,
/// if it writes one below 2^32.
fn parse_hex(text: &Vec<char>) -> (value: Option<u32>)
    ensures
        match value {
            Some(v) => {
                let digits = unsigned_digits(text@);
                &&& digits.len() > 0
                &&& forall|i: int| 0 <= i < digits.len() ==> is_hex_digit(#[trigger] digits[i])
                &&& v == hex_value(digits)
            },
            None => {
                let digits = unsigned_digits(text@);
                ||| digits.len() == 0
                ||| exists|i: int| 0 <= i < digits.len() && !is_hex_digit(#[trigger] digits[i])
                ||| hex_value(digits) > u32::MAX
            },
        },
{
    let n = text.len();
    let first: usize = if n > 0 && text[0] == '+' {
        1
    } else {
        0
    };
    let ghost digits = unsigned_digits(text@);
    if first == n {
        return None;
    }
    let mut value: u32 = 0;
    let mut i: usize = first;
    let mut too_large = false;
    assert(digits.take(0) =~= Seq::<char>::empty());
    while i < n
        invariant
            first <= i <= n,
            n == text@.len(),
            digits == unsigned_digits(text@),
            digits.len() == n - first,
            forall|j: int| 0 <= j < digits.len() ==> digits[j] == text@[j + first],
            forall|j: int| 0 <= j < i - first ==> is_hex_digit(#[trigger] digits[j]),
            !too_large ==> value == hex_value(digits.take(i - first)),
            too_large ==> hex_value(digits.take(i - first)) > u32::MAX,
        decreases n - i,
    {
        proof {
            assert(digits.take(i - first + 1).drop_last() =~= digits.take(i - first));
            assert(digits.take(i - first + 1).last() == text@[i as int]);
        }
        match hex_digit(text[i]) {
            Some(d) => {
                if too_large || value > (u32::MAX - d) / 16 {
                    proof {
                        assert forall|j: int| 0 <= j < digits.take(i - first).len() implies is_hex_digit(
                            #[trigger] digits.take(i - first)[j],
                        ) by {
                            assert(digits.take(i - first)[j] == digits[j]);
                        }
                        lemma_hex_value_nonnegative(digits.take(i - first));
                    }
                    too_large = true;
                } else {
                    value = value * 16 + d;
                }
            },
            None => {
                assert(!is_hex_digit(digits[i - first]));
                return None;
            },
        }
        i += 1;
    }
    assert(digits.take(n - first) =~= digits);
    if too_large {
        None
    } else {
        Some(value)
    }
}

/// The characters of `hex` that are read as a number.
fn color_chars(hex: &str) -> (chars: Vec<char>)
    ensures
        chars@ == color_digits(hex@),
{
    let mut all: Vec<char> = Vec::new();
    for c in it: hex.chars()
        invariant
            it.seq() == hex@,
            all@ == hex@.take(it.index()),
    {
        proof {
            assert(hex@.take(it.index() + 1) =~= hex@.take(it.index()).push(c));
        }
        all.push(c);
    }
    assert(hex@.take(hex@.len() as int) =~= hex@);
    if all.len() == 4 {
        let doubled = vec![all[1], all[1], all[2], all[2], all[3], all[3]];
        assert(doubled@ =~= color_digits(hex@));
        doubled
    } else {
        all
    }
}

/// The red, green and blue parts of the colour that `hex` writes, or `None`
/// where it writes none.
pub fn try_hex_to_rgb(hex: &str) -> (rgb: Option<(u32, u32, u32)>)
    ensures
        rgb is Some <==> is_hex_color(hex@),
        rgb matches Some(parts) ==> parts == rgb_of(color_value(hex@) as u32),
{
    let chars = color_chars(hex);
    match parse_hex(&chars) {
        Some(c) => Some(((c >> 16) & 255, (c >> 8) & 255, c & 255)),
        None => None,
    }
}

/// The red, green and blue parts of the colour that `hex` writes: a text of
/// four characters such as `#fa0` stands for `ffaa00`; any other text is read
/// as a hexadecimal number and must hold nothing else.
pub fn hex_to_rgb(hex: &str) -> (rgb: (u32, u32, u32))
    requires
        is_hex_color(hex@),
    ensures
        rgb == rgb_of(color_value(hex@) as u32),
{
    let chars = color_chars(hex);
    let c = parse_hex(&chars).unwrap();
    ((c >> 16) & 255, (c >> 8) & 255, c & 255)
}

} // verus!
