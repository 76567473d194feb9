//! What the user can do on the pages of the calculator.

use crate::dec_formats::DecFormats;
use crate::hex_formats::HexFormats;
use crate::settings::SettingsMessage;
use vstd::prelude::*;

verus! {

/// One action of the user.
#[derive(Debug, Clone)]
pub enum Message {
    /// The text in the decimal field, or in the octal field, was edited.
    DecInputChanged(String),
    /// The text in the hexadecimal field was edited.
    HexInputChanged(String),
    ShiftLeft,
    ShiftRight,
    Not,
    /// The value is to be copied as hexadecimal text in the given layout.
    HexCopy(HexFormats),
    /// The value is to be copied as decimal text in the given layout.
    DecCopy(DecFormats),
    /// The decimal field is to show the value as signed, or as unsigned.
    SignToggled(bool),
    /// The settings page is to be shown.
    Settings,
    /// The main page is to be shown.
    Main,
    /// A widget gave a new value.
    InputU32Changed(u32),
    /// A choice was made on the settings page.
    SettingsMessage(SettingsMessage),
}

} // verus!
