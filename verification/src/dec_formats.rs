//! The layouts in which the value can be copied as decimal text.

use crate::digits::{push_radix, radix_text};
use num_format::{Locale, ToFormattedString};
use vstd::prelude::*;

verus! {

/// A layout of the value as decimal text: the bare digits, or the digits in
/// groups of three with a point or a comma between the groups.
#[derive(Debug, Clone, Copy, PartialEq, Eq, Structural)]
pub enum DecFormats {
    Plain,
    PointSeperator,
    CommaSeperator,
}

/// `value` in decimal digits, in groups of three counted from the right,
/// with `separator` between each two groups.
pub open spec fn grouped_text(value: nat, separator: char) -> Seq<char>
    decreases value,
{
    if value < 1000 {
        radix_text(value, 10, 1)
    } else {
        grouped_text(value / 1000, separator).push(separator) + radix_text(value % 1000, 10, 3)
    }
}

/// `value` grouped as by `grouped_text`, behind a minus sign where it is
/// negative.
pub open spec fn signed_grouped_text(value: int, separator: char) -> Seq<char> {
    if value < 0 {
        seq!['-'] + grouped_text((-value) as nat, separator)
    } else {
        grouped_text(value as nat, separator)
    }
}

/// `value` as text in the layout `format`.
pub open spec fn decimal_text(value: u32, format: DecFormats) -> Seq<char> {
    match format {
        DecFormats::Plain => radix_text(value as nat, 10, 1),
        DecFormats::PointSeperator => grouped_text(value as nat, '.'),
        DecFormats::CommaSeperator => grouped_text(value as nat, ','),
    }
}

/// The text by which a layout is offered for choice.
pub open spec fn sample_text(format: DecFormats) -> Seq<char> {
    match format {
        DecFormats::Plain => "123456"@,
        DecFormats::PointSeperator => "123.456"@,
        DecFormats::CommaSeperator => "123,456"@,
    }
}

impl DecFormats {
    /// Every layout, in the order in which they are offered.
    pub const ALL: [DecFormats; 3] = [
        DecFormats::Plain,
        DecFormats::PointSeperator,
        DecFormats::CommaSeperator,
    ];

    /// The text by which the layout is offered for choice.
    pub fn sample(&self) -> (text: &'static str)
        ensures
            text@ == sample_text(*self),
    {
        match self {
            DecFormats::Plain => "123456",
            DecFormats::PointSeperator => "123.456",
            DecFormats::CommaSeperator => "123,456",
        }
    }
}

impl Default for DecFormats {
    fn default() -> (format: Self)
        ensures
            format == DecFormats::Plain,
    {
        DecFormats::Plain
    }
}

/// Calls `num_format::ToFormattedString::to_formatted_string` with
/// `num_format::Locale::de`. Not proved: that the result is the number in
/// decimal digits, grouped in threes from the right with a point between the
/// groups, behind `-` where the number is negative. That is what the locale's
/// table gives for `de`: the separator `.`, the standard grouping and the
/// minus sign `-`.
#[verifier::external_body]
pub(crate) fn group_with_points(value: i64) -> (text: String)
    ensures
        text@ == signed_grouped_text(value as int, '.'),
{
    value.to_formatted_string(&Locale::de)
}

/// Calls `num_format::ToFormattedString::to_formatted_string` with
/// `num_format::Locale::en`. Not proved: that the result is the number in
/// decimal digits, grouped in threes from the right with a comma between the
/// groups, behind `-` where the number is negative. That is what the locale's
/// table gives for `en`: the separator `,`, the standard grouping and the
/// minus sign `-`.
#[verifier::external_body]
pub(crate) fn group_with_commas(value: i64) -> (text: String)
    ensures
        text@ == signed_grouped_text(value as int, ','),
{
    value.to_formatted_string(&Locale::en)
}

/// `value` as text in the layout `format`.
pub fn format_decimal(value: u32, format: DecFormats) -> (text: String)
    ensures
        text@ == decimal_text(value, format),
{
    match format {
        DecFormats::Plain => {
            let mut text = String::new();
            push_radix(&mut text, value, 10, 1);
            assert(text@ =~= radix_text(value as nat, 10, 1));
            text
        },
        DecFormats::PointSeperator => group_with_points(value as i64),
        DecFormats::CommaSeperator => group_with_commas(value as i64),
    }
}

} // verus!
