//! The keypad in its two-way form: decimal, or hexadecimal where `hex` is
//! set.

use crate::length::Length;
pub use crate::numeric_input_widget::DecimalInputWidgetMessage;
use crate::numeric_input_widget::{
    decimal_keypad, decimal_rows, hexadecimal_keypad, hexadecimal_rows, press_all, pressed_all,
    rows_are, DEFAULT_PADDING, DEFAULT_SPACING, DEFAULT_TEXT_SIZE,
};
use vstd::prelude::*;

verus! {

/// The base in which a two-way keypad takes its digits.
pub open spec fn radix_for(hex: bool) -> u32 {
    if hex {
        16
    } else {
        10
    }
}

/// A keypad that is decimal or hexadecimal: the value it works on, its
/// numeral system and the measures it is drawn with.
#[derive(Debug, Clone, Copy, PartialEq, Eq, Structural)]
pub struct DecimalInputWidget {
    /// The value that the presses change.
    pub value: u32,
    /// The width of the widget.
    pub width: Length,
    /// The height of the widget.
    pub height: Length,
    /// The maximum height of the widget.
    pub max_height: u32,
    /// The text size.
    pub text_size: u16,
    /// The padding around the buttons.
    pub padding: u16,
    /// The spacing around the buttons.
    pub spacing: u16,
    /// Whether the keypad takes hexadecimal digits.
    pub hex: bool,
}

impl DecimalInputWidget {
    /// A keypad on `value`, with the default measures.
    pub fn new(value: u32, hex: bool) -> (widget: Self)
        ensures
            widget == (DecimalInputWidget {
                value,
                width: Length::Fill,
                height: Length::Units(40),
                max_height: u32::MAX,
                text_size: DEFAULT_TEXT_SIZE,
                padding: DEFAULT_PADDING,
                spacing: DEFAULT_SPACING,
                hex,
            }),
    {
        DecimalInputWidget {
            value,
            width: Length::Fill,
            height: Length::Units(40),
            max_height: u32::MAX,
            text_size: DEFAULT_TEXT_SIZE,
            padding: DEFAULT_PADDING,
            spacing: DEFAULT_SPACING,
            hex,
        }
    }

    /// A keypad on `value`, with the default measures.
    pub fn decimal_input_widget(value: u32, hex: bool) -> (widget: Self)
        ensures
            widget == (DecimalInputWidget {
                value,
                width: Length::Fill,
                height: Length::Units(40),
                max_height: u32::MAX,
                text_size: DEFAULT_TEXT_SIZE,
                padding: DEFAULT_PADDING,
                spacing: DEFAULT_SPACING,
                hex,
            }),
    {
        DecimalInputWidget::new(value, hex)
    }

    /// Sets the width.
    #[must_use]
    pub fn width(self, width: Length) -> (widget: Self)
        ensures
            widget == (DecimalInputWidget { width, ..self }),
    {
        DecimalInputWidget { width, ..self }
    }

    /// Gets the width.
    #[must_use]
    pub fn get_width(&self) -> (width: Length)
        ensures
            width == self.width,
    {
        self.width
    }

    /// Sets the height.
    #[must_use]
    pub fn height(self, height: Length) -> (widget: Self)
        ensures
            widget == (DecimalInputWidget { height, ..self }),
    {
        DecimalInputWidget { height, ..self }
    }

    /// Gets the height.
    #[must_use]
    pub fn get_height(&self) -> (height: Length)
        ensures
            height == self.height,
    {
        self.height
    }

    /// Sets the maximum height.
    #[must_use]
    pub fn max_height(self, max_height: u32) -> (widget: Self)
        ensures
            widget == (DecimalInputWidget { max_height, ..self }),
    {
        DecimalInputWidget { max_height, ..self }
    }

    /// Sets the text size.
    #[must_use]
    pub fn text_size(self, text_size: u16) -> (widget: Self)
        ensures
            widget == (DecimalInputWidget { text_size, ..self }),
    {
        DecimalInputWidget { text_size, ..self }
    }

    /// Sets the padding around the buttons.
    #[must_use]
    pub fn padding(self, padding: u16) -> (widget: Self)
        ensures
            widget == (DecimalInputWidget { padding, ..self }),
    {
        DecimalInputWidget { padding, ..self }
    }

    /// Sets the spacing around the buttons.
    #[must_use]
    pub fn spacing(self, spacing: u16) -> (widget: Self)
        ensures
            widget == (DecimalInputWidget { spacing, ..self }),
    {
        DecimalInputWidget { spacing, ..self }
    }

    /// The rows of buttons that the keypad shows, from the top row down.
    pub fn content(&self) -> (rows: Vec<Vec<DecimalInputWidgetMessage>>)
        ensures
            rows_are(
                rows@,
                if self.hex {
                    hexadecimal_rows()
                } else {
                    decimal_rows()
                },
            ),
    {
        if self.hex {
            hexadecimal_keypad()
        } else {
            decimal_keypad()
        }
    }

    /// Takes the presses that one event set off, in their order, and says
    /// what is to be announced: the new value where there was any press,
    /// nothing where there was none.
    pub fn on_event(&mut self, messages: &Vec<DecimalInputWidgetMessage>) -> (changed: Option<u32>)
        ensures
            *final(self) == (DecimalInputWidget {
                value: pressed_all(old(self).value, radix_for(old(self).hex), messages@),
                ..*old(self)
            }),
            changed == (if messages@.len() > 0 {
                Some(final(self).value)
            } else {
                None
            }),
    {
        let base: u32 = if self.hex {
            16
        } else {
            10
        };
        let value = press_all(self.value, base, messages);
        self.value = value;
        if messages.len() > 0 {
            Some(value)
        } else {
            None
        }
    }
}

} // verus!
