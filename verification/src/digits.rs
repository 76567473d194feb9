//! Numbers as digit strings: written in any base from two to sixteen, read
//! in any base from two to thirty-six.

use vstd::prelude::*;
use vstd::string::*;

verus! {

/// The character that stands for `digit`: `0` to `9`, then the lower-case
/// letters from `a` on.
pub open spec fn digit_char(digit: nat) -> char {
    if digit < 10 {
        (0x30 + digit) as char
    } else {
        (0x61 + digit - 10) as char
    }
}

/// `value` written in `base` with at least `width` digits, zero-padded on the
/// left. A width of zero asks for the same text as a width of one. There is
/// no base below two: for such a base the text is left as one character.
pub open spec fn radix_text(value: nat, base: nat, width: nat) -> Seq<char>
    decreases value + width,
    via radix_text_terminates
{
    if base < 2 || (value < base && width <= 1) {
        seq![digit_char(value)]
    } else {
        let rest = if width == 0 {
            0
        } else {
            (width - 1) as nat
        };
        radix_text(value / base, base, rest).push(digit_char(value % base))
    }
}

#[via_fn]
proof fn radix_text_terminates(value: nat, base: nat, width: nat) {
    if !(base < 2 || (value < base && width <= 1)) {
        lemma_quotient_smaller(value, base);
    }
}

/// Dividing by a base of two or more gives zero below the base and a smaller
/// number from the base on.
pub proof fn lemma_quotient_smaller(value: nat, base: nat)
    requires
        base >= 2,
    ensures
        value < base ==> value / base == 0,
        value >= base ==> 0 < value / base < value,
        value % base < base,
        value == (value / base) * base + value % base,
{
    assert(value < base ==> value / base == 0) by (nonlinear_arith)
        requires
            base >= 2,
    ;
    assert(value >= base ==> 0 < value / base < value) by (nonlinear_arith)
        requires
            base >= 2,
    ;
    assert(value % base < base && value == (value / base) * base + value % base)
        by (nonlinear_arith)
        requires
            base >= 2,
    ;
}

/// Appends the character of one digit.
fn push_digit(out: &mut String, digit: u32)
    requires
        digit < 16,
    ensures
        final(out)@ == old(out)@.push(digit_char(digit as nat)),
{
    let table = "0123456789abcdef";
    proof {
        reveal_strlit("0123456789abcdef");
    }
    let piece = table.substring_char(digit as usize, digit as usize + 1);
    assert(piece@ =~= seq![digit_char(digit as nat)]);
    out.append(piece);
    assert(out@ =~= old(out)@.push(digit_char(digit as nat)));
}

/// Appends `value` written in `base` with at least `width` digits.
pub fn push_radix(out: &mut String, value: u32, base: u32, width: u32)
    requires
        2 <= base <= 16,
    ensures
        final(out)@ == old(out)@ + radix_text(value as nat, base as nat, width as nat),
    decreases value + width,
{
    if value < base && width <= 1 {
        push_digit(out, value);
        assert(out@ =~= old(out)@ + radix_text(value as nat, base as nat, width as nat));
    } else {
        let rest: u32 = if width > 0 {
            width - 1
        } else {
            0
        };
        proof {
            lemma_quotient_smaller(value as nat, base as nat);
        }
        push_radix(out, value / base, base, rest);
        push_digit(out, value % base);
        assert(out@ =~= old(out)@ + radix_text(value as nat, base as nat, width as nat));
    }
}

/// The digit that `c` stands for in `base`: `0` to `9`, then the letters in
/// either case from ten on. `None` where `c` is no digit of that base.
pub open spec fn digit_of(c: char, base: nat) -> Option<nat> {
    let code = c as nat;
    let digit: Option<nat> = if 0x30 <= code <= 0x39 {
        Some((code - 0x30) as nat)
    } else if 0x61 <= code <= 0x7a {
        Some((code - 0x61 + 10) as nat)
    } else if 0x41 <= code <= 0x5a {
        Some((code - 0x41 + 10) as nat)
    } else {
        None
    };
    match digit {
        Some(d) => if d < base {
            Some(d)
        } else {
            None
        },
        None => None,
    }
}

/// Every character of `text` is a digit of `base`.
pub open spec fn all_digits(text: Seq<char>, base: nat) -> bool {
    forall|i: int| 0 <= i < text.len() ==> (#[trigger] digit_of(text[i], base)) is Some
}

/// The number that the digits of `text` spell in `base`, the most
/// significant digit first. A character that is no digit counts as zero.
pub open spec fn digits_value(text: Seq<char>, base: nat) -> nat
    decreases text.len(),
{
    if text.len() == 0 {
        0
    } else {
        let last = match digit_of(text.last(), base) {
            Some(d) => d,
            None => 0,
        };
        digits_value(text.drop_last(), base) * base + last
    }
}

/// `text` without one leading plus sign.
pub open spec fn unsigned_part(text: Seq<char>) -> Seq<char> {
    if text.len() > 0 && text[0] == '+' {
        text.subrange(1, text.len() as int)
    } else {
        text
    }
}

/// The number that `text` spells in `base`: an optional plus sign, then one
/// digit or more, and nothing else. `None` where `text` has another shape or
/// the number does not fit in 32 bits.
pub open spec fn number_of(text: Seq<char>, base: nat) -> Option<u32> {
    let digits = unsigned_part(text);
    if digits.len() > 0 && all_digits(digits, base) && digits_value(digits, base) <= u32::MAX {
        Some(digits_value(digits, base) as u32)
    } else {
        None
    }
}

/// Whether `c` is one of the characters that may stand between groups of
/// digits: the point, the comma and the space.
pub open spec fn is_separator(c: char) -> bool {
    c == '.' || c == ',' || c == ' '
}

/// `text` without its separators.
pub open spec fn without_separators(text: Seq<char>) -> Seq<char> {
    text.filter(|c: char| !is_separator(c))
}

/// Base to the power of `exponent`.
pub open spec fn power(base: nat, exponent: nat) -> nat
    decreases exponent,
{
    if exponent == 0 {
        1
    } else {
        base * power(base, (exponent - 1) as nat)
    }
}

/// A longer text of digits does not spell a smaller number than its
/// beginning does.
pub proof fn lemma_value_grows(text: Seq<char>, base: nat, count: int)
    requires
        base >= 1,
        0 <= count <= text.len(),
    ensures
        digits_value(text.take(count), base) <= digits_value(text, base),
    decreases text.len(),
{
    if count == text.len() {
        assert(text.take(count) =~= text);
    } else {
        assert(text.drop_last().take(count) =~= text.take(count));
        lemma_value_grows(text.drop_last(), base, count);
        let shorter = digits_value(text.drop_last(), base);
        assert(shorter <= shorter * base) by (nonlinear_arith)
            requires
                base >= 1,
        ;
    }
}

/// The digit that `c` stands for in `base`, if it is one.
pub fn to_digit(c: char, base: u32) -> (digit: Option<u32>)
    requires
        2 <= base <= 36,
    ensures
        digit == (match digit_of(c, base as nat) {
            Some(d) => Some(d as u32),
            None => None,
        }),
{
    let code = c as u32;
    let digit: u32 = if 0x30 <= code && code <= 0x39 {
        code - 0x30
    } else if 0x61 <= code && code <= 0x7a {
        code - 0x61 + 10
    } else if 0x41 <= code && code <= 0x5a {
        code - 0x41 + 10
    } else {
        return None;
    };
    if digit < base {
        Some(digit)
    } else {
        None
    }
}

/// Reads `text` as a number in `base`.
pub fn parse_number(text: &str, base: u32) -> (number: Option<u32>)
    requires
        2 <= base <= 36,
    ensures
        number == number_of(text@, base as nat),
{
    let length = text.unicode_len();
    let start: usize = if length > 0 && text.get_char(0) == '+' {
        1
    } else {
        0
    };
    let ghost digits = unsigned_part(text@);
    assert(digits =~= text@.subrange(start as int, length as int));
    if start == length {
        return None;
    }
    let mut value: u32 = 0;
    let mut at: usize = start;
    while at < length
        invariant
            2 <= base <= 36,
            length == text@.len(),
            start <= at <= length,
            digits == unsigned_part(text@),
            digits == text@.subrange(start as int, length as int),
            all_digits(digits.take(at - start), base as nat),
            value == digits_value(digits.take(at - start), base as nat),
        decreases length - at,
    {
        let c = text.get_char(at);
        let ghost seen = digits.take(at - start);
        let ghost next = digits.take(at - start + 1);
        proof {
            assert(next.drop_last() =~= seen);
            assert(next.last() == c);
            assert(digits[at - start] == c);
        }
        let digit = match to_digit(c, base) {
            Some(d) => d,
            None => {
                assert(digit_of(digits[at - start], base as nat) is None);
                return None;
            },
        };
        proof {
            assert(digits_value(next, base as nat) == value * base + digit);
            lemma_value_grows(digits, base as nat, at - start + 1);
        }
        let scaled = match value.checked_mul(base) {
            Some(scaled) => scaled,
            None => {
                return None;
            },
        };
        value = match scaled.checked_add(digit) {
            Some(sum) => sum,
            None => {
                return None;
            },
        };
        proof {
            assert forall|i: int| 0 <= i < next.len() implies (#[trigger] digit_of(
                next[i],
                base as nat,
            )) is Some by {
                if i < seen.len() {
                    assert(next[i] == seen[i]);
                }
            }
        }
        at += 1;
    }
    assert(digits.take(at - start) =~= digits);
    Some(value)
}

/// A copy of `text` without its separators.
pub fn strip_separators(text: &str) -> (stripped: String)
    ensures
        stripped@ == without_separators(text@),
{
    let length = text.unicode_len();
    let mut stripped = String::new();
    let mut at: usize = 0;
    proof {
        reveal(Seq::filter);
        assert(text@.take(0) =~= Seq::<char>::empty());
    }
    while at < length
        invariant
            length == text@.len(),
            at <= length,
            stripped@ == text@.take(at as int).filter(|c: char| !is_separator(c)),
        decreases length - at,
    {
        let c = text.get_char(at);
        proof {
            assert(text@.take(at + 1) =~= text@.take(at as int).push(c));
            text@.take(at as int).lemma_filter_push(c, |c: char| !is_separator(c));
        }
        if !(c == '.' || c == ',' || c == ' ') {
            let piece = text.substring_char(at, at + 1);
            assert(piece@ =~= seq![c]);
            stripped.append(piece);
            assert(stripped@ =~= text@.take(at as int).filter(|c: char| !is_separator(c)).push(c));
        }
        at += 1;
    }
    assert(text@.take(at as int) =~= text@);
    stripped
}

/// A digit's character is read back as that digit.
pub proof fn lemma_digit_reads_back(digit: nat, base: nat)
    requires
        digit < base <= 16,
    ensures
        digit_of(digit_char(digit), base) == Some(digit),
        !is_separator(digit_char(digit)),
        digit_char(digit) != '+',
{
    if digit < 10 {
        assert(digit_char(digit) as nat == 0x30 + digit);
    } else {
        assert(digit_char(digit) as nat == 0x61 + digit - 10);
    }
}

/// What `radix_text` writes is made of digits of the base alone, at least
/// one of them, and spells the number it was made from.
pub proof fn lemma_radix_text_reads_back(value: nat, base: nat, width: nat)
    requires
        2 <= base <= 16,
    ensures
        radix_text(value, base, width).len() >= 1,
        radix_text(value, base, width).len() >= width,
        all_digits(radix_text(value, base, width), base),
        digits_value(radix_text(value, base, width), base) == value,
    decreases value + width,
{
    let text = radix_text(value, base, width);
    if value < base && width <= 1 {
        lemma_digit_reads_back(value, base);
        assert(text.drop_last() =~= Seq::<char>::empty());
        assert(digits_value(text.drop_last(), base) == 0);
        assert(0 * base == 0) by (nonlinear_arith);
    } else {
        let rest_width = if width == 0 {
            0
        } else {
            (width - 1) as nat
        };
        let rest = radix_text(value / base, base, rest_width);
        lemma_quotient_smaller(value, base);
        lemma_radix_text_reads_back(value / base, base, rest_width);
        lemma_digit_reads_back(value % base, base);
        assert(text.drop_last() =~= rest);
        assert(text.last() == digit_char(value % base));
        assert forall|i: int| 0 <= i < text.len() implies (#[trigger] digit_of(text[i], base))
            is Some by {
            if i < rest.len() {
                assert(text[i] == rest[i]);
            }
        }
    }
}

/// A number below the base to the power of `width`, written with at least
/// `width` digits, has exactly `width` digits.
pub proof fn lemma_radix_text_width(value: nat, base: nat, width: nat)
    requires
        2 <= base <= 16,
        width >= 1,
        value < power(base, width),
    ensures
        radix_text(value, base, width).len() == width,
    decreases width,
{
    if width == 1 {
        assert(power(base, 1) == base * power(base, 0));
        assert(base * 1 == base) by (nonlinear_arith);
    } else {
        let below = (width - 1) as nat;
        lemma_quotient_smaller(value, base);
        assert(value / base < power(base, below)) by (nonlinear_arith)
            requires
                value < base * power(base, below),
                base >= 2,
                value == (value / base) * base + value % base,
        ;
        lemma_radix_text_width(value / base, base, below);
    }
}

/// Text made of digits alone has no separator to lose and no sign to drop.
pub proof fn lemma_digits_stay(text: Seq<char>, base: nat)
    requires
        base <= 36,
        all_digits(text, base),
    ensures
        without_separators(text) == text,
        unsigned_part(text) == text,
    decreases text.len(),
{
    reveal(Seq::filter);
    if text.len() > 0 {
        let shorter = text.drop_last();
        assert forall|i: int| 0 <= i < shorter.len() implies (#[trigger] digit_of(
            shorter[i],
            base,
        )) is Some by {
            assert(shorter[i] == text[i]);
        }
        lemma_digits_stay(shorter, base);
        assert(digit_of(text.last(), base) is Some);
        assert(digit_of(text[0], base) is Some);
        assert(shorter.push(text.last()) =~= text);
    }
}

/// Two texts of digits written one after the other spell the first number,
/// moved up by as many places as the second text has, plus the second.
pub proof fn lemma_value_of_joined(left: Seq<char>, right: Seq<char>, base: nat)
    ensures
        digits_value(left + right, base) == digits_value(left, base) * power(base, right.len())
            + digits_value(right, base),
    decreases right.len(),
{
    if right.len() == 0 {
        assert(left + right =~= left);
        assert(digits_value(left, base) * 1 == digits_value(left, base)) by (nonlinear_arith);
    } else {
        let shorter = right.drop_last();
        assert((left + right).drop_last() =~= left + shorter);
        assert((left + right).last() == right.last());
        lemma_value_of_joined(left, shorter, base);
        let high = digits_value(left, base);
        let low = digits_value(shorter, base);
        let scale = power(base, shorter.len());
        assert(power(base, right.len()) == base * scale);
        assert((high * scale + low) * base == high * (base * scale) + low * base)
            by (nonlinear_arith);
    }
}

} // verus!
