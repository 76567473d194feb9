//! View-model of a calculator that shows one 32-bit value in binary,
//! hexadecimal, decimal and octal at once. Every representation is derived
//! from the value; nothing here draws a window or touches the clipboard.

pub mod bits;
pub mod binary_field_widget;
pub mod byte_lane;
pub mod calculator;
pub mod dec_formats;
pub mod decimal_input_widget;
pub mod digits;
pub mod formatter;
pub mod hex_formats;
pub mod language_type;
pub mod length;
pub mod messages;
pub mod numeric_input_widget;
pub mod settings;
pub mod theme_type;
