//! The value as text in each of the four numeral systems, and text entered
//! by hand back to a value.

use crate::binary_field_widget::get_bit;
use crate::bits::bit_at;
use crate::dec_formats::{
    decimal_text, group_with_points, grouped_text, signed_grouped_text, DecFormats,
};
use crate::digits::{
    all_digits, digit_char, digit_of, digits_value, is_separator, lemma_digits_stay,
    lemma_radix_text_reads_back, lemma_radix_text_width, lemma_value_of_joined, number_of,
    parse_number, power, push_radix, radix_text, strip_separators, unsigned_part,
    without_separators,
};
use crate::hex_formats::{format_hex, half, hex_text, HexFormats};
use vstd::prelude::*;
use vstd::string::*;

verus! {

/// The value as hexadecimal text in the entry field: two blocks of four
/// lower-case digits.
pub open spec fn hex_display_text(value: u32) -> Seq<char> {
    hex_text(value, HexFormats::MotorolaSmall2Blocks)
}

/// Group `place` of the octal display: nine bits of the value, counted from
/// the bottom. Group 3 reaches beyond bit 31 and holds bits 31 to 27 alone.
pub open spec fn octal_group(value: u32, place: u32) -> u32 {
    (value >> (9 * place) as u32) & 0o777
}

/// The value as octal text in the entry field: four groups of nine bits
/// each, the top group with at least two octal digits, the others with at
/// least three.
pub open spec fn octal_display_text(value: u32) -> Seq<char> {
    radix_text(octal_group(value, 3) as nat, 8, 2) + seq![' '] + radix_text(
        octal_group(value, 2) as nat,
        8,
        3,
    ) + seq![' '] + radix_text(octal_group(value, 1) as nat, 8, 3) + seq![' '] + radix_text(
        octal_group(value, 0) as nat,
        8,
        3,
    )
}

/// The number that the 32 bits stand for where they are read as a signed
/// number in two's complement.
pub open spec fn signed_value(value: u32) -> int {
    if value >= 0x8000_0000 {
        value - 0x1_0000_0000
    } else {
        value as int
    }
}

/// The value as decimal text in the entry field, in groups of three with a
/// point between them; read as a signed number where `signed` is set.
pub open spec fn decimal_display_text(value: u32, signed: bool) -> Seq<char> {
    if signed {
        signed_grouped_text(signed_value(value), '.')
    } else {
        grouped_text(value as nat, '.')
    }
}

/// The value as binary text: 32 characters, `1` for a set bit and `0` for a
/// clear one, the most significant bit first.
pub open spec fn binary_text(value: u32) -> Seq<char> {
    Seq::new(
        32,
        |place: int|
            if bit_at(value, (31 - place) as u32) {
                '1'
            } else {
                '0'
            },
    )
}

/// The value that binary text spells: `None` unless the text is exactly 32
/// characters, each `0` or `1`.
pub open spec fn binary_value(text: Seq<char>) -> Option<u32> {
    if text.len() == 32 && all_digits(text, 2) {
        Some(digits_value(text, 2) as u32)
    } else {
        None
    }
}

/// The value after `text` was entered in a field of base `base`, where the
/// value was `prior` before. An empty text gives zero. Otherwise the points,
/// commas and spaces are left out and the rest is read as a number; where it
/// is none, or too large, the value stays what it was.
pub open spec fn input_value(prior: u32, text: Seq<char>, base: nat) -> u32 {
    if text.len() == 0 {
        0
    } else {
        match number_of(without_separators(text), base) {
            Some(value) => value,
            None => prior,
        }
    }
}

/// The value as hexadecimal text in the entry field.
pub fn hex_display(value: u32) -> (text: String)
    ensures
        text@ == hex_display_text(value),
{
    format_hex(value, HexFormats::MotorolaSmall2Blocks)
}

/// The value as octal text in the entry field.
pub fn octal_display(value: u32) -> (text: String)
    ensures
        text@ == octal_display_text(value),
{
    proof {
        reveal_strlit(" ");
        assert(" "@ =~= seq![' ']);
    }
    let bottom = value & 0o777;
    assert(bottom == octal_group(value, 0)) by (bit_vector)
        requires
            bottom == value & 0o777,
    ;
    let mut text = String::new();
    push_radix(&mut text, (value >> 27) & 0o777, 8, 2);
    text.append(" ");
    push_radix(&mut text, (value >> 18) & 0o777, 8, 3);
    text.append(" ");
    push_radix(&mut text, (value >> 9) & 0o777, 8, 3);
    text.append(" ");
    push_radix(&mut text, bottom, 8, 3);
    assert(text@ =~= octal_display_text(value));
    text
}

/// The value as decimal text in the entry field.
pub fn decimal_display(value: u32, signed: bool) -> (text: String)
    ensures
        text@ == decimal_display_text(value, signed),
{
    if signed && value >= 0x8000_0000 {
        group_with_points(value as i64 - 0x1_0000_0000)
    } else {
        group_with_points(value as i64)
    }
}

/// The value as binary text.
pub fn format_binary(value: u32) -> (text: String)
    ensures
        text@ == binary_text(value),
{
    let mut text = String::new();
    let mut place: u8 = 0;
    while place < 32
        invariant
            place <= 32,
            text@.len() == place,
            forall|i: int| 0 <= i < place ==> text@[i] == binary_text(value)[i],
        decreases 32 - place,
    {
        let ghost before = text@;
        proof {
            reveal_strlit("0");
            reveal_strlit("1");
        }
        if get_bit(value, 31 - place) {
            text.append("1");
            assert("1"@ =~= seq!['1']);
        } else {
            text.append("0");
            assert("0"@ =~= seq!['0']);
        }
        assert forall|i: int| 0 <= i < place + 1 implies text@[i] == binary_text(value)[i] by {
            if i < place {
                assert(text@[i] == before[i]);
            }
        }
        place += 1;
    }
    assert(text@ =~= binary_text(value));
    text
}

/// A text of `base` digits spells a number below `base` to the power of the
/// text's length.
pub proof fn lemma_value_below_power(text: Seq<char>, base: nat)
    requires
        base >= 2,
        all_digits(text, base),
    ensures
        digits_value(text, base) < power(base, text.len()),
    decreases text.len(),
{
    if text.len() > 0 {
        let shorter = text.drop_last();
        assert forall|i: int| 0 <= i < shorter.len() implies (#[trigger] digit_of(
            shorter[i],
            base,
        )) is Some by {
            assert(shorter[i] == text[i]);
        }
        lemma_value_below_power(shorter, base);
        assert(digit_of(text.last(), base) is Some);
        let high = digits_value(shorter, base);
        let low = digit_of(text.last(), base)->0;
        let bound = power(base, shorter.len());
        assert(power(base, text.len()) == base * bound);
        assert(high * base + low < base * bound) by (nonlinear_arith)
            requires
                high < bound,
                low < base,
        ;
    }
}

/// Reads binary text.
pub fn parse_binary(text: &str) -> (value: Option<u32>)
    ensures
        value == binary_value(text@),
{
    if text.unicode_len() != 32 {
        return None;
    }
    if text.get_char(0) == '+' {
        assert(digit_of(text@[0], 2) is None);
        return None;
    }
    let value = parse_number(text, 2);
    proof {
        assert(unsigned_part(text@) == text@);
        if all_digits(text@, 2) {
            lemma_value_below_power(text@, 2);
            assert(power(2, 32) == 0x1_0000_0000) by {
                reveal_with_fuel(power, 33);
            }
        }
    }
    value
}

/// Takes what was typed in the decimal field.
pub fn decimal_input(prior: u32, text: &str) -> (value: u32)
    ensures
        value == input_value(prior, text@, 10),
{
    text_input(prior, text, 10)
}

/// Takes what was typed in the hexadecimal field.
pub fn hex_input(prior: u32, text: &str) -> (value: u32)
    ensures
        value == input_value(prior, text@, 16),
{
    text_input(prior, text, 16)
}

/// Takes what was typed in a field of base `base`.
pub fn text_input(prior: u32, text: &str, base: u32) -> (value: u32)
    requires
        2 <= base <= 36,
    ensures
        value == input_value(prior, text@, base as nat),
{
    if text.is_empty() {
        0
    } else {
        let stripped = strip_separators(text);
        match parse_number(stripped.as_str(), base) {
            Some(value) => value,
            None => prior,
        }
    }
}

/// The first `count` characters of the binary text spell the top `count`
/// bits of the value.
proof fn lemma_binary_prefix(value: u32, count: nat)
    requires
        1 <= count <= 32,
    ensures
        digits_value(binary_text(value).take(count as int), 2) == value >> (32 - count) as u32,
    decreases count,
{
    let text = binary_text(value);
    let prefix = text.take(count as int);
    let place = (32 - count) as u32;
    assert(prefix.drop_last() =~= text.take(count - 1));
    assert(prefix.last() == text[count - 1]);
    assert(digit_of('1', 2) == Some(1nat));
    assert(digit_of('0', 2) == Some(0nat));
    let low: nat = if bit_at(value, place) {
        1
    } else {
        0
    };
    assert(digits_value(prefix, 2) == digits_value(text.take(count - 1), 2) * 2 + low);
    if count == 1 {
        assert(text.take(0) =~= Seq::<char>::empty());
        assert(value >> 31u32 == if (value >> 31u32) & 1 == 1 {
            1u32
        } else {
            0u32
        }) by (bit_vector);
    } else {
        lemma_binary_prefix(value, (count - 1) as nat);
        let above = (place + 1) as u32;
        assert(value >> place == 2 * (value >> above) + if (value >> place) & 1 == 1 {
            1u32
        } else {
            0u32
        }) by (bit_vector)
            requires
                place < 31,
                above == place + 1,
        ;
    }
}

/// The value written as binary text and read back is the value: its 32 bits,
/// the most significant first, say all there is to say about it.
pub proof fn lemma_binary_round_trip(value: u32)
    ensures
        binary_value(binary_text(value)) == Some(value),
{
    let text = binary_text(value);
    assert(digit_of('1', 2) == Some(1nat));
    assert(digit_of('0', 2) == Some(0nat));
    assert forall|i: int| 0 <= i < text.len() implies (#[trigger] digit_of(text[i], 2)) is Some by {
        assert(text[i] == '1' || text[i] == '0');
    }
    lemma_binary_prefix(value, 32);
    assert(text.take(32) =~= text);
    assert(value >> 0u32 == value) by (bit_vector);
}

/// Asking for no digit at least is asking for one.
proof fn lemma_width_zero_is_one(value: nat, base: nat)
    ensures
        radix_text(value, base, 0) == radix_text(value, base, 1),
{
}

/// From a thousand on, the decimal digits of a number are those of its
/// thousands, then the three digits of the rest.
proof fn lemma_thousands_split(value: nat)
    requires
        value >= 1000,
    ensures
        radix_text(value, 10, 1) == radix_text(value / 1000, 10, 1) + radix_text(
            value % 1000,
            10,
            3,
        ),
{
    let rest = value % 1000;
    let ones = digit_char(value % 10);
    let tens = digit_char((value / 10) % 10);
    let hundreds = digit_char((value / 100) % 10);
    let high = radix_text(value / 1000, 10, 1);
    assert(radix_text(value, 10, 1) == radix_text(value / 10, 10, 0).push(ones));
    assert(radix_text(value / 10, 10, 0) == radix_text(value / 100, 10, 0).push(tens));
    assert(radix_text(value / 100, 10, 0) == radix_text(value / 1000, 10, 0).push(hundreds));
    lemma_width_zero_is_one(value / 1000, 10);
    assert(radix_text(rest, 10, 3) == radix_text(rest / 10, 10, 2).push(ones));
    assert(radix_text(rest / 10, 10, 2) == radix_text(rest / 100, 10, 1).push(tens));
    assert(radix_text(rest / 100, 10, 1) == seq![hundreds]);
    assert(high.push(hundreds).push(tens).push(ones) =~= high + seq![hundreds].push(tens).push(
        ones,
    ));
}

/// Grouped digits without their separators are the bare digits.
pub proof fn lemma_grouped_strips_to_plain(value: nat, separator: char)
    requires
        is_separator(separator),
    ensures
        without_separators(grouped_text(value, separator)) == radix_text(value, 10, 1),
    decreases value,
{
    let keep = |c: char| !is_separator(c);
    if value < 1000 {
        lemma_radix_text_reads_back(value, 10, 1);
        lemma_digits_stay(radix_text(value, 10, 1), 10);
    } else {
        let high = grouped_text(value / 1000, separator);
        let low = radix_text(value % 1000, 10, 3);
        lemma_grouped_strips_to_plain(value / 1000, separator);
        lemma_radix_text_reads_back(value % 1000, 10, 3);
        lemma_digits_stay(low, 10);
        high.lemma_filter_push(separator, keep);
        Seq::filter_distributes_over_add(high.push(separator), low, keep);
        lemma_thousands_split(value);
    }
}

/// The value copied as decimal text in any of the layouts and typed back
/// into the decimal field is the value, whatever the field held before.
pub proof fn lemma_decimal_round_trip(value: u32, format: DecFormats, prior: u32)
    ensures
        input_value(prior, decimal_text(value, format), 10) == value,
{
    let plain = radix_text(value as nat, 10, 1);
    lemma_radix_text_reads_back(value as nat, 10, 1);
    lemma_digits_stay(plain, 10);
    match format {
        DecFormats::Plain => {},
        DecFormats::PointSeperator => {
            lemma_grouped_strips_to_plain(value as nat, '.');
            lemma_grouped_not_empty(value as nat, '.');
        },
        DecFormats::CommaSeperator => {
            lemma_grouped_strips_to_plain(value as nat, ',');
            lemma_grouped_not_empty(value as nat, ',');
        },
    }
}

/// Grouped digits are never the empty text.
proof fn lemma_grouped_not_empty(value: nat, separator: char)
    ensures
        grouped_text(value, separator).len() > 0,
{
    if value < 1000 {
        lemma_radix_text_reads_back(value, 10, 1);
    } else {
        lemma_radix_text_reads_back(value % 1000, 10, 3);
    }
}

/// The value shown in the hexadecimal field and typed back into it is the
/// value, whatever the field held before.
pub proof fn lemma_hex_round_trip(value: u32, prior: u32)
    ensures
        input_value(prior, hex_display_text(value), 16) == value,
{
    let high = half(value, 1);
    let low = half(value, 0);
    let left = radix_text(high as nat, 16, 4);
    let right = radix_text(low as nat, 16, 4);
    let keep = |c: char| !is_separator(c);
    assert(hex_display_text(value) == left + seq![' '] + right);
    lemma_radix_text_reads_back(high as nat, 16, 4);
    lemma_radix_text_reads_back(low as nat, 16, 4);
    lemma_digits_stay(left, 16);
    lemma_digits_stay(right, 16);
    assert(seq![' '].filter(keep) =~= Seq::<char>::empty()) by {
        reveal_with_fuel(Seq::filter, 2);
        assert(seq![' '].drop_last() =~= Seq::<char>::empty());
    }
    Seq::filter_distributes_over_add(left, seq![' '], keep);
    Seq::filter_distributes_over_add(left + seq![' '], right, keep);
    let joined = left + right;
    assert(without_separators(hex_display_text(value)) =~= joined);
    assert forall|i: int| 0 <= i < joined.len() implies (#[trigger] digit_of(joined[i], 16))
        is Some by {
        if i < left.len() {
            assert(joined[i] == left[i]);
        } else {
            assert(joined[i] == right[i - left.len()]);
        }
    }
    lemma_digits_stay(joined, 16);
    assert(power(16, 4) == 0x1_0000) by {
        reveal_with_fuel(power, 5);
    }
    assert(low < 0x1_0000 && high * 0x1_0000 + low == value) by (bit_vector)
        requires
            high == (value >> 16u32) & 0xffff,
            low == (value >> 0u32) & 0xffff,
    ;
    lemma_radix_text_width(low as nat, 16, 4);
    lemma_value_of_joined(left, right, 16);
}

} // verus!
