//! The state of the calculator and its one step: from a state and an action
//! of the user to the next state and the text, if any, that is to go to the
//! clipboard.

use crate::bits::{bitwise_not, shift_left, shift_right};
use crate::dec_formats::{decimal_text, format_decimal};
use crate::formatter::{
    decimal_display, decimal_display_text, decimal_input, hex_display, hex_display_text,
    hex_input, input_value, octal_display, octal_display_text,
};
use crate::hex_formats::{format_hex, hex_text, HexFormats};
use crate::messages::Message;
use crate::settings::{BinaryCalulatorSettings, SettingsMessage, SettingsView};
use crate::theme_type::ThemeType;
use vstd::prelude::*;
use vstd::string::*;

verus! {

/// The width of the window.
pub const WINDOW_WIDTH: u32 = 885;

/// The height of the window.
pub const WINDOW_HEIGHT: u32 = 450;

/// The page that is shown.
#[derive(Debug, Clone, Copy, PartialEq, Eq, Structural)]
pub enum Pages {
    Main,
    Settings,
}

impl Default for Pages {
    fn default() -> (page: Self)
        ensures
            page == Pages::Main,
    {
        Pages::Main
    }
}

/// The calculator: the value, how the decimal field reads it, the page that
/// is shown, and the settings.
#[derive(Debug, Clone)]
pub struct BinaryCalculator {
    /// The 32-bit value that every field shows.
    pub value: u32,
    /// Whether the decimal field reads the value as a signed number.
    pub signed: bool,
    /// The page that is shown.
    pub page: Pages,
    /// The theme, the language and the texts.
    pub settings: BinaryCalulatorSettings,
}

/// What the main page shows: the value in each numeral system, and the texts
/// around it in the chosen language.
#[derive(Debug, Clone)]
pub struct MainView {
    /// The value, from which the bit field and the keypads are made.
    pub value: u32,
    /// The text in the hexadecimal field.
    pub hexadecimal: String,
    /// The text in the decimal field.
    pub decimal: String,
    /// The text in the octal field.
    pub octal: String,
    /// Whether the switch beside the decimal field is on.
    pub signed: bool,
    /// The text beside that switch.
    pub sign_label: String,
    /// The heading of the hexadecimal column.
    pub hexadecimal_heading: String,
    /// The heading of the decimal column.
    pub decimal_heading: String,
    /// The heading of the octal column.
    pub octal_heading: String,
    /// The placeholder of the lists that copy the value.
    pub copy_placeholder: String,
}

/// What is under the two buttons at the top of the window.
#[derive(Debug, Clone)]
pub enum PageView {
    Main(MainView),
    Settings(SettingsView),
}

/// What the window shows.
#[derive(Debug, Clone)]
pub struct WindowView {
    /// The caption of the button that opens the main page.
    pub main_button: String,
    /// The caption of the button that opens the settings page.
    pub settings_button: String,
    /// The page under the buttons.
    pub page: PageView,
}

/// The text beside the switch of the decimal field.
pub open spec fn sign_label_text(signed: bool) -> Seq<char> {
    if signed {
        "signed"@
    } else {
        "unsigned"@
    }
}

impl BinaryCalculator {
    /// The value after `message`.
    pub open spec fn next_value(&self, message: Message) -> u32 {
        match message {
            Message::ShiftLeft => self.value << 1u32,
            Message::ShiftRight => self.value >> 1u32,
            Message::Not => !self.value,
            Message::DecInputChanged(text) => input_value(self.value, text@, 10),
            Message::HexInputChanged(text) => input_value(self.value, text@, 16),
            Message::InputU32Changed(value) => value,
            _ => self.value,
        }
    }

    /// The settings after `message`.
    pub open spec fn next_settings(&self, message: Message) -> BinaryCalulatorSettings {
        match message {
            Message::SettingsMessage(SettingsMessage::ThemeChanged(theme)) => {
                BinaryCalulatorSettings { theme, ..self.settings }
            },
            Message::SettingsMessage(SettingsMessage::Language(language)) => {
                BinaryCalulatorSettings { language, ..self.settings }
            },
            _ => self.settings,
        }
    }

    /// The calculator after `message`.
    pub open spec fn next(&self, message: Message) -> BinaryCalculator {
        BinaryCalculator {
            value: self.next_value(message),
            signed: match message {
                Message::SignToggled(signed) => signed,
                _ => self.signed,
            },
            page: match message {
                Message::Settings => Pages::Settings,
                Message::Main => Pages::Main,
                _ => self.page,
            },
            settings: self.next_settings(message),
        }
    }

    /// The text that `message` sends to the clipboard, if it sends any.
    pub open spec fn copied(&self, message: Message) -> Option<Seq<char>> {
        match message {
            Message::HexCopy(format) => Some(hex_text(self.value, format)),
            Message::DecCopy(format) => Some(decimal_text(self.value, format)),
            _ => None,
        }
    }

    /// `view` is the main page of this calculator.
    pub open spec fn shown_by_main(&self, view: MainView) -> bool {
        let texts = self.settings.texts_of(self.settings.language);
        &&& view.value == self.value
        &&& view.hexadecimal@ == hex_display_text(self.value)
        &&& view.decimal@ == decimal_display_text(self.value, self.signed)
        &&& view.octal@ == octal_display_text(self.value)
        &&& view.signed == self.signed
        &&& view.sign_label@ == sign_label_text(self.signed)
        &&& view.hexadecimal_heading@ == texts.hexadecimal_str@
        &&& view.decimal_heading@ == texts.decimal_str@
        &&& view.octal_heading@ == texts.octal_str@
        &&& view.copy_placeholder@ == texts.copy_to_clipboard_str@
    }

    /// `view` is the window of this calculator.
    pub open spec fn shown_by(&self, view: WindowView) -> bool {
        let texts = self.settings.texts_of(self.settings.language);
        &&& view.main_button@ == texts.main_str@
        &&& view.settings_button@ == texts.setting_str@
        &&& match view.page {
            PageView::Main(main) => self.page == Pages::Main && self.shown_by_main(main),
            PageView::Settings(settings) => self.page == Pages::Settings
                && self.settings.shown_by(settings),
        }
    }

    /// The calculator at the start: the value zero, read as unsigned, on the
    /// main page.
    pub fn new(settings: BinaryCalulatorSettings) -> (calculator: Self)
        ensures
            calculator == (BinaryCalculator {
                value: 0,
                signed: false,
                page: Pages::Main,
                settings,
            }),
    {
        BinaryCalculator { value: 0, signed: false, page: Pages::Main, settings }
    }

    /// The title of the window.
    pub fn title(&self) -> (title: String)
        ensures
            title@ == "Binary Calculator"@,
    {
        String::from_str("Binary Calculator")
    }

    /// The chosen theme.
    pub fn theme(&self) -> (theme: ThemeType)
        ensures
            theme == self.settings.theme,
    {
        self.settings.theme()
    }

    /// The value as hexadecimal text in the layout `format`, as it is to go
    /// to the clipboard.
    pub fn copy_hex_to_clipboard(&self, format: HexFormats) -> (text: String)
        ensures
            text@ == hex_text(self.value, format),
    {
        format_hex(self.value, format)
    }

    /// Takes one action of the user. Gives the text that is to go to the
    /// clipboard, where the action was a copy.
    pub fn update(&mut self, message: Message) -> (clipboard: Option<String>)
        ensures
            *final(self) == old(self).next(message),
            (match old(self).copied(message) {
                Some(text) => clipboard matches Some(copy) && copy@ == text,
                None => clipboard is None,
            }),
    {
        match message {
            Message::ShiftLeft => {
                self.value = shift_left(self.value);
                None
            },
            Message::ShiftRight => {
                self.value = shift_right(self.value);
                None
            },
            Message::Not => {
                self.value = bitwise_not(self.value);
                None
            },
            Message::DecInputChanged(text) => {
                self.value = decimal_input(self.value, text.as_str());
                None
            },
            Message::HexInputChanged(text) => {
                self.value = hex_input(self.value, text.as_str());
                None
            },
            Message::HexCopy(format) => Some(self.copy_hex_to_clipboard(format)),
            Message::DecCopy(format) => Some(format_decimal(self.value, format)),
            Message::SignToggled(signed) => {
                self.signed = signed;
                None
            },
            Message::Settings => {
                self.page = Pages::Settings;
                None
            },
            Message::Main => {
                self.page = Pages::Main;
                None
            },
            Message::InputU32Changed(value) => {
                self.value = value;
                None
            },
            Message::SettingsMessage(msg) => {
                self.settings.update(msg);
                None
            },
        }
    }

    /// What the window shows.
    pub fn view(&self) -> (view: WindowView)
        ensures
            self.shown_by(view),
    {
        let texts = self.settings.texts();
        let page = match self.page {
            Pages::Main => PageView::Main(
                MainView {
                    value: self.value,
                    hexadecimal: hex_display(self.value),
                    decimal: decimal_display(self.value, self.signed),
                    octal: octal_display(self.value),
                    signed: self.signed,
                    sign_label: if self.signed {
                        String::from_str("signed")
                    } else {
                        String::from_str("unsigned")
                    },
                    hexadecimal_heading: texts.hexadecimal_str.clone(),
                    decimal_heading: texts.decimal_str.clone(),
                    octal_heading: texts.octal_str.clone(),
                    copy_placeholder: texts.copy_to_clipboard_str.clone(),
                },
            ),
            Pages::Settings => PageView::Settings(self.settings.view()),
        };
        WindowView {
            main_button: texts.main_str.clone(),
            settings_button: texts.setting_str.clone(),
            page,
        }
    }
}

} // verus!
