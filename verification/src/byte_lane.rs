//! The four one-character fields, each bound to one byte of the value.

use crate::hex_formats::byte_lane;
use vstd::prelude::*;
use vstd::string::*;

verus! {

/// `value` with byte `lane` replaced by the low eight bits of `code`; the
/// other three bytes stay as they are.
pub open spec fn with_byte(value: u32, lane: u32, code: u32) -> u32 {
    (value & !(0xffu32 << (8 * lane) as u32)) | ((code & 0xff) << (8 * lane) as u32)
}

/// The value after the field of byte `lane` was set to `text`. A text of
/// exactly one character puts that character's code, cut to eight bits, in
/// the lane; any other text changes nothing.
pub open spec fn lane_edited(value: u32, lane: u32, text: Seq<char>) -> u32 {
    if text.len() == 1 {
        with_byte(value, lane, text[0] as u32)
    } else {
        value
    }
}

/// The byte that was written is read back, and the other lanes are
/// untouched.
pub proof fn lemma_with_byte_reads_back(value: u32, lane: u32, code: u32, other: u32)
    requires
        lane < 4,
        other < 4,
    ensures
        byte_lane(with_byte(value, lane, code), lane) == code & 0xff,
        other != lane ==> byte_lane(with_byte(value, lane, code), other) == byte_lane(value, other),
{
    let shift = (8 * lane) as u32;
    let far = (8 * other) as u32;
    assert((((value & !(0xffu32 << shift)) | ((code & 0xff) << shift)) >> shift) & 0xff == code
        & 0xff) by (bit_vector)
        requires
            shift == 0 || shift == 8 || shift == 16 || shift == 24,
    ;
    assert(shift != far ==> (((value & !(0xffu32 << shift)) | ((code & 0xff) << shift)) >> far)
        & 0xff == (value >> far) & 0xff) by (bit_vector)
        requires
            shift == 0 || shift == 8 || shift == 16 || shift == 24,
            far == 0 || far == 8 || far == 16 || far == 24,
    ;
}

/// Takes an edit of the field of byte `lane`.
pub fn edit_byte_lane(value: u32, lane: u8, text: &str) -> (edited: u32)
    requires
        lane < 4,
    ensures
        edited == lane_edited(value, lane as u32, text@),
        text@.len() == 1 ==> byte_lane(edited, lane as u32) == (text@[0] as u32) & 0xff,
        forall|other: u32|
            other < 4 && other != lane ==> byte_lane(edited, other) == byte_lane(value, other),
{
    if text.unicode_len() != 1 {
        return value;
    }
    let code = text.get_char(0) as u32;
    let shift: u32 = 8 * (lane as u32);
    let edited = (value & !(0xffu32 << shift)) | ((code & 0xff) << shift);
    proof {
        lemma_with_byte_reads_back(value, lane as u32, code, lane as u32);
        assert forall|other: u32| other < 4 && other != lane implies byte_lane(edited, other)
            == byte_lane(value, other) by {
            lemma_with_byte_reads_back(value, lane as u32, code, other);
        }
    }
    edited
}

} // verus!
