//! The layouts in which the value can be copied as hexadecimal text.

use crate::digits::{push_radix, radix_text};
use vstd::prelude::*;
use vstd::string::*;

verus! {

/// A layout of the value as hexadecimal text. The Motorola layouts give the
/// most significant byte first, the Intel layouts the least significant one.
#[derive(Debug, Clone, Copy, PartialEq, Eq, Structural)]
pub enum HexFormats {
    MotorolaSmall1Block,
    MotorolaSmall2Blocks,
    MotorolaSmall4Blocks,
    MotorolaSmall1BlockWithX,
    MotorolaSmall2BlocksWithX,
    MotorolaSmall4BlocksWithX,
    MotorolaSmall4BlocksWithXWithBrackets,
    MotorolaArray,
    Intel4Blocks,
    Intel4BlocksWithX,
    Intel4BlocksWithXWitchBrackets,
    IntelArray,
}

/// Byte `lane` of `value`: lane 0 holds bits 7 to 0, lane 3 bits 31 to 24.
pub open spec fn byte_lane(value: u32, lane: u32) -> u32 {
    (value >> (8 * lane) as u32) & 0xff
}

/// Half `side` of `value`: side 0 holds bits 15 to 0, side 1 bits 31 to 16.
pub open spec fn half(value: u32, side: u32) -> u32 {
    (value >> (16 * side) as u32) & 0xffff
}

/// One block of hexadecimal text: `part` in lower-case digits, at least
/// `width` of them, behind `0x` where `prefix` is set, and the whole in
/// square brackets where `brackets` is set.
pub open spec fn block(part: u32, width: nat, prefix: bool, brackets: bool) -> Seq<char> {
    let digits = radix_text(part as nat, 16, width);
    let body = if prefix {
        seq!['0', 'x'] + digits
    } else {
        digits
    };
    if brackets {
        seq!['['] + body + seq![']']
    } else {
        body
    }
}

/// Four blocks in a row with `gap` between each two.
pub open spec fn four(
    first: Seq<char>,
    second: Seq<char>,
    third: Seq<char>,
    fourth: Seq<char>,
    gap: Seq<char>,
) -> Seq<char> {
    first + gap + second + gap + third + gap + fourth
}

/// The four bytes of `value`, each as a block, in the order of the lanes
/// given by `from_top`: the most significant byte first where it is set,
/// the least significant one first where it is not.
pub open spec fn four_bytes(
    value: u32,
    from_top: bool,
    width: nat,
    prefix: bool,
    brackets: bool,
    gap: Seq<char>,
) -> Seq<char> {
    if from_top {
        four(
            block(byte_lane(value, 3), width, prefix, brackets),
            block(byte_lane(value, 2), width, prefix, brackets),
            block(byte_lane(value, 1), width, prefix, brackets),
            block(byte_lane(value, 0), width, prefix, brackets),
            gap,
        )
    } else {
        four(
            block(byte_lane(value, 0), width, prefix, brackets),
            block(byte_lane(value, 1), width, prefix, brackets),
            block(byte_lane(value, 2), width, prefix, brackets),
            block(byte_lane(value, 3), width, prefix, brackets),
            gap,
        )
    }
}

/// `value` with its four bytes in the opposite order: lane 0 becomes lane 3,
/// lane 1 becomes lane 2, and the other way round.
pub open spec fn swapped_bytes(value: u32) -> u32 {
    (byte_lane(value, 0) << 24u32) | (byte_lane(value, 1) << 16u32) | (byte_lane(value, 2) << 8u32)
        | byte_lane(value, 3)
}

/// The Motorola layout that an Intel layout mirrors: the same blocks, the
/// same gaps and the same brackets. A Motorola layout has no partner here.
pub open spec fn motorola_partner(format: HexFormats) -> Option<HexFormats> {
    match format {
        HexFormats::Intel4Blocks => Some(HexFormats::MotorolaSmall4Blocks),
        HexFormats::Intel4BlocksWithX => Some(HexFormats::MotorolaSmall4BlocksWithX),
        HexFormats::Intel4BlocksWithXWitchBrackets => Some(
            HexFormats::MotorolaSmall4BlocksWithXWithBrackets,
        ),
        HexFormats::IntelArray => Some(HexFormats::MotorolaArray),
        _ => None,
    }
}

/// `value` as text in the layout `format`.
pub open spec fn hex_text(value: u32, format: HexFormats) -> Seq<char> {
    match format {
        HexFormats::MotorolaSmall1Block => block(value, 8, false, false),
        HexFormats::MotorolaSmall2Blocks => block(half(value, 1), 4, false, false) + seq![' ']
            + block(half(value, 0), 4, false, false),
        HexFormats::MotorolaSmall4Blocks => four_bytes(value, true, 2, false, false, seq![' ']),
        HexFormats::MotorolaSmall1BlockWithX => block(value, 8, true, false),
        HexFormats::MotorolaSmall2BlocksWithX => block(half(value, 1), 4, true, false) + seq![' ']
            + block(half(value, 0), 4, true, false),
        HexFormats::MotorolaSmall4BlocksWithX => four_bytes(value, true, 2, true, false, seq![' ']),
        HexFormats::MotorolaSmall4BlocksWithXWithBrackets => four_bytes(
            value,
            true,
            2,
            true,
            true,
            seq![' '],
        ),
        HexFormats::MotorolaArray => seq!['['] + four_bytes(
            value,
            true,
            2,
            true,
            false,
            seq![',', ' '],
        ) + seq![']'],
        HexFormats::Intel4Blocks => four_bytes(value, false, 2, false, false, seq![' ']),
        HexFormats::Intel4BlocksWithX => four_bytes(value, false, 2, true, false, seq![' ']),
        HexFormats::Intel4BlocksWithXWitchBrackets => four_bytes(
            value,
            false,
            2,
            true,
            true,
            seq![' '],
        ),
        HexFormats::IntelArray => seq!['['] + four_bytes(
            value,
            false,
            2,
            true,
            false,
            seq![',', ' '],
        ) + seq![']'],
    }
}

/// The text by which a layout is offered for choice: what the layout is
/// meant to look like for a value with the bytes 00, 11, ee and ff.
pub open spec fn sample_text(format: HexFormats) -> Seq<char> {
    match format {
        HexFormats::MotorolaSmall1Block => "0011eeff"@,
        HexFormats::MotorolaSmall2Blocks => "0011 ee ff"@,
        HexFormats::MotorolaSmall4Blocks => "00 11 ee ff"@,
        HexFormats::MotorolaSmall1BlockWithX => "0x0011eeff"@,
        HexFormats::MotorolaSmall2BlocksWithX => "0x0011 0xeeff"@,
        HexFormats::MotorolaSmall4BlocksWithX => "0x00 0x11 0xee 0xff"@,
        HexFormats::MotorolaSmall4BlocksWithXWithBrackets => "[0x00] [0x11] [0xee] [0xff]"@,
        HexFormats::MotorolaArray => "[0x00, 0x11, 0xee, 0xff]"@,
        HexFormats::Intel4Blocks => "ff ee 11 00"@,
        HexFormats::Intel4BlocksWithX => "0xff 0xee 0x11 0x00"@,
        HexFormats::Intel4BlocksWithXWitchBrackets => "[0xff] [0xee] [0x11] [0x00]"@,
        HexFormats::IntelArray => "[0xff, 0xee, 0x11, 0x00]"@,
    }
}

impl HexFormats {
    /// Every layout, in the order in which they are offered.
    pub const ALL: [HexFormats; 12] = [
        HexFormats::MotorolaSmall1Block,
        HexFormats::MotorolaSmall2Blocks,
        HexFormats::MotorolaSmall4Blocks,
        HexFormats::MotorolaSmall1BlockWithX,
        HexFormats::MotorolaSmall2BlocksWithX,
        HexFormats::MotorolaSmall4BlocksWithX,
        HexFormats::MotorolaSmall4BlocksWithXWithBrackets,
        HexFormats::MotorolaArray,
        HexFormats::Intel4Blocks,
        HexFormats::Intel4BlocksWithX,
        HexFormats::Intel4BlocksWithXWitchBrackets,
        HexFormats::IntelArray,
    ];

    /// The text by which the layout is offered for choice.
    pub fn sample(&self) -> (text: &'static str)
        ensures
            text@ == sample_text(*self),
    {
        match self {
            HexFormats::MotorolaSmall1Block => "0011eeff",
            HexFormats::MotorolaSmall2Blocks => "0011 ee ff",
            HexFormats::MotorolaSmall4Blocks => "00 11 ee ff",
            HexFormats::MotorolaSmall1BlockWithX => "0x0011eeff",
            HexFormats::MotorolaSmall2BlocksWithX => "0x0011 0xeeff",
            HexFormats::MotorolaSmall4BlocksWithX => "0x00 0x11 0xee 0xff",
            HexFormats::MotorolaSmall4BlocksWithXWithBrackets => "[0x00] [0x11] [0xee] [0xff]",
            HexFormats::MotorolaArray => "[0x00, 0x11, 0xee, 0xff]",
            HexFormats::Intel4Blocks => "ff ee 11 00",
            HexFormats::Intel4BlocksWithX => "0xff 0xee 0x11 0x00",
            HexFormats::Intel4BlocksWithXWitchBrackets => "[0xff] [0xee] [0x11] [0x00]",
            HexFormats::IntelArray => "[0xff, 0xee, 0x11, 0x00]",
        }
    }
}

impl Default for HexFormats {
    fn default() -> (format: Self)
        ensures
            format == HexFormats::MotorolaSmall1Block,
    {
        HexFormats::MotorolaSmall1Block
    }
}

/// Each byte of the swapped value is the byte of the opposite lane.
pub proof fn lemma_swapped_lanes(value: u32)
    ensures
        byte_lane(swapped_bytes(value), 0) == byte_lane(value, 3),
        byte_lane(swapped_bytes(value), 1) == byte_lane(value, 2),
        byte_lane(swapped_bytes(value), 2) == byte_lane(value, 1),
        byte_lane(swapped_bytes(value), 3) == byte_lane(value, 0),
{
    let bottom = byte_lane(value, 0);
    let lower = byte_lane(value, 1);
    let upper = byte_lane(value, 2);
    let top = byte_lane(value, 3);
    let swapped = swapped_bytes(value);
    lemma_lane_is_byte(value, 0);
    lemma_lane_is_byte(value, 1);
    lemma_lane_is_byte(value, 2);
    lemma_lane_is_byte(value, 3);
    assert((swapped >> 0u32) & 0xff == top && (swapped >> 8u32) & 0xff == upper && (swapped
        >> 16u32) & 0xff == lower && (swapped >> 24u32) & 0xff == bottom) by (bit_vector)
        requires
            swapped == (bottom << 24u32) | (lower << 16u32) | (upper << 8u32) | top,
            bottom <= 0xff,
            lower <= 0xff,
            upper <= 0xff,
            top <= 0xff,
    ;
}

/// Every byte lane holds a byte.
proof fn lemma_lane_is_byte(value: u32, lane: u32)
    ensures
        byte_lane(value, lane) <= 0xff,
{
    let shifted = value >> (8 * lane) as u32;
    assert(shifted & 0xff <= 0xff) by (bit_vector);
}

/// An Intel layout of a value is the text that its Motorola partner gives
/// for the value with its bytes in the opposite order: the two differ in the
/// order of the bytes and in nothing else.
pub proof fn lemma_intel_mirrors_motorola(value: u32, format: HexFormats)
    requires
        motorola_partner(format) is Some,
    ensures
        hex_text(value, format) == hex_text(swapped_bytes(value), motorola_partner(format)->0),
{
    lemma_swapped_lanes(value);
}

/// Appends one block of hexadecimal text.
pub fn push_block(out: &mut String, part: u32, width: u32, prefix: bool, brackets: bool)
    ensures
        final(out)@ == old(out)@ + block(part, width as nat, prefix, brackets),
{
    proof {
        reveal_strlit("[");
        reveal_strlit("0x");
        reveal_strlit("]");
        assert("["@ =~= seq!['[']);
        assert("0x"@ =~= seq!['0', 'x']);
        assert("]"@ =~= seq![']']);
    }
    if brackets {
        out.append("[");
    }
    if prefix {
        out.append("0x");
    }
    push_radix(out, part, 16, width);
    if brackets {
        out.append("]");
    }
    assert(out@ =~= old(out)@ + block(part, width as nat, prefix, brackets));
}

/// Appends the four bytes of `value` as blocks with `gap` between each two.
pub fn push_four_bytes(
    out: &mut String,
    value: u32,
    from_top: bool,
    width: u32,
    prefix: bool,
    brackets: bool,
    gap: &str,
)
    ensures
        final(out)@ == old(out)@ + four_bytes(
            value,
            from_top,
            width as nat,
            prefix,
            brackets,
            gap@,
        ),
{
    let top = (value >> 24) & 0xff;
    let upper = (value >> 16) & 0xff;
    let lower = (value >> 8) & 0xff;
    let bottom = value & 0xff;
    assert(bottom == byte_lane(value, 0)) by (bit_vector)
        requires
            bottom == value & 0xff,
    ;
    assert(lower == byte_lane(value, 1) && upper == byte_lane(value, 2) && top == byte_lane(
        value,
        3,
    ));
    let (first, second, third, fourth) = if from_top {
        (top, upper, lower, bottom)
    } else {
        (bottom, lower, upper, top)
    };
    push_block(out, first, width, prefix, brackets);
    out.append(gap);
    push_block(out, second, width, prefix, brackets);
    out.append(gap);
    push_block(out, third, width, prefix, brackets);
    out.append(gap);
    push_block(out, fourth, width, prefix, brackets);
    assert(out@ =~= old(out)@ + four_bytes(
        value,
        from_top,
        width as nat,
        prefix,
        brackets,
        gap@,
    ));
}

/// `value` as text in the layout `format`.
pub fn format_hex(value: u32, format: HexFormats) -> (text: String)
    ensures
        text@ == hex_text(value, format),
{
    proof {
        reveal_strlit(" ");
        reveal_strlit(", ");
        reveal_strlit("[");
        reveal_strlit("]");
        assert(" "@ =~= seq![' ']);
        assert(", "@ =~= seq![',', ' ']);
        assert("["@ =~= seq!['[']);
        assert("]"@ =~= seq![']']);
    }
    let high = (value >> 16) & 0xffff;
    let low = value & 0xffff;
    assert(low == half(value, 0)) by (bit_vector)
        requires
            low == value & 0xffff,
    ;
    assert(high == half(value, 1));
    let mut text = String::new();
    match format {
        HexFormats::MotorolaSmall1Block => {
            push_block(&mut text, value, 8, false, false);
        },
        HexFormats::MotorolaSmall2Blocks => {
            push_block(&mut text, high, 4, false, false);
            text.append(" ");
            push_block(&mut text, low, 4, false, false);
        },
        HexFormats::MotorolaSmall4Blocks => {
            push_four_bytes(&mut text, value, true, 2, false, false, " ");
        },
        HexFormats::MotorolaSmall1BlockWithX => {
            push_block(&mut text, value, 8, true, false);
        },
        HexFormats::MotorolaSmall2BlocksWithX => {
            push_block(&mut text, high, 4, true, false);
            text.append(" ");
            push_block(&mut text, low, 4, true, false);
        },
        HexFormats::MotorolaSmall4BlocksWithX => {
            push_four_bytes(&mut text, value, true, 2, true, false, " ");
        },
        HexFormats::MotorolaSmall4BlocksWithXWithBrackets => {
            push_four_bytes(&mut text, value, true, 2, true, true, " ");
        },
        HexFormats::MotorolaArray => {
            text.append("[");
            push_four_bytes(&mut text, value, true, 2, true, false, ", ");
            text.append("]");
        },
        HexFormats::Intel4Blocks => {
            push_four_bytes(&mut text, value, false, 2, false, false, " ");
        },
        HexFormats::Intel4BlocksWithX => {
            push_four_bytes(&mut text, value, false, 2, true, false, " ");
        },
        HexFormats::Intel4BlocksWithXWitchBrackets => {
            push_four_bytes(&mut text, value, false, 2, true, true, " ");
        },
        HexFormats::IntelArray => {
            text.append("[");
            push_four_bytes(&mut text, value, false, 2, true, false, ", ");
            text.append("]");
        },
    }
    assert(text@ =~= hex_text(value, format));
    text
}

} // verus!
