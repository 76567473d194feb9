//! The keypads: one press of a button is one step from the value to the
//! next value.

use crate::bits::negate;
use crate::length::Length;
use vstd::prelude::*;

verus! {

/// The default text size.
pub const DEFAULT_TEXT_SIZE: u16 = 16;

/// The default padding around the buttons.
pub const DEFAULT_PADDING: u16 = 5;

/// The default spacing around the buttons.
pub const DEFAULT_SPACING: u16 = 0;

/// The width of one button.
pub const BUTTON_WIDTH: u16 = 40;

/// The spacing between two buttons, and between two rows of them.
pub const BUTTON_SPACING: u16 = 10;

/// The numeral system in which a keypad takes its digits.
#[derive(Debug, Clone, Copy, PartialEq, Eq, Structural)]
pub enum InputType {
    Octal,
    Decimal,
    Hexadecimal,
}

impl InputType {
    /// The base of the numeral system: 8, 10 or 16.
    pub open spec fn radix(self) -> u32 {
        match self {
            InputType::Octal => 8,
            InputType::Decimal => 10,
            InputType::Hexadecimal => 16,
        }
    }

    /// The base of the numeral system: 8, 10 or 16.
    pub fn base(&self) -> (base: u32)
        ensures
            base == self.radix(),
    {
        match self {
            InputType::Octal => 8,
            InputType::Decimal => 10,
            InputType::Hexadecimal => 16,
        }
    }
}

/// A button of a keypad was pressed.
#[derive(Debug, Clone, Copy, PartialEq, Eq, Structural)]
pub enum DecimalInputWidgetMessage {
    Button0,
    Button1,
    Button2,
    Button3,
    Button4,
    Button5,
    Button6,
    Button7,
    Button8,
    Button9,
    ButtonSignum,
    ButtonBackspace,
    ButtonA,
    ButtonB,
    ButtonC,
    ButtonD,
    ButtonE,
    ButtonF,
}

impl DecimalInputWidgetMessage {
    /// The digit that the button enters; `None` for the two buttons that
    /// enter none.
    pub open spec fn digit_of(self) -> Option<u32> {
        match self {
            DecimalInputWidgetMessage::Button0 => Some(0),
            DecimalInputWidgetMessage::Button1 => Some(1),
            DecimalInputWidgetMessage::Button2 => Some(2),
            DecimalInputWidgetMessage::Button3 => Some(3),
            DecimalInputWidgetMessage::Button4 => Some(4),
            DecimalInputWidgetMessage::Button5 => Some(5),
            DecimalInputWidgetMessage::Button6 => Some(6),
            DecimalInputWidgetMessage::Button7 => Some(7),
            DecimalInputWidgetMessage::Button8 => Some(8),
            DecimalInputWidgetMessage::Button9 => Some(9),
            DecimalInputWidgetMessage::ButtonA => Some(10),
            DecimalInputWidgetMessage::ButtonB => Some(11),
            DecimalInputWidgetMessage::ButtonC => Some(12),
            DecimalInputWidgetMessage::ButtonD => Some(13),
            DecimalInputWidgetMessage::ButtonE => Some(14),
            DecimalInputWidgetMessage::ButtonF => Some(15),
            DecimalInputWidgetMessage::ButtonSignum => None,
            DecimalInputWidgetMessage::ButtonBackspace => None,
        }
    }

    /// What is written on the button.
    pub open spec fn label_text(self) -> Seq<char> {
        match self {
            DecimalInputWidgetMessage::Button0 => "0"@,
            DecimalInputWidgetMessage::Button1 => "1"@,
            DecimalInputWidgetMessage::Button2 => "2"@,
            DecimalInputWidgetMessage::Button3 => "3"@,
            DecimalInputWidgetMessage::Button4 => "4"@,
            DecimalInputWidgetMessage::Button5 => "5"@,
            DecimalInputWidgetMessage::Button6 => "6"@,
            DecimalInputWidgetMessage::Button7 => "7"@,
            DecimalInputWidgetMessage::Button8 => "8"@,
            DecimalInputWidgetMessage::Button9 => "9"@,
            DecimalInputWidgetMessage::ButtonA => "A"@,
            DecimalInputWidgetMessage::ButtonB => "B"@,
            DecimalInputWidgetMessage::ButtonC => "C"@,
            DecimalInputWidgetMessage::ButtonD => "D"@,
            DecimalInputWidgetMessage::ButtonE => "E"@,
            DecimalInputWidgetMessage::ButtonF => "F"@,
            DecimalInputWidgetMessage::ButtonSignum => "\u{c2}\u{b1}"@,
            DecimalInputWidgetMessage::ButtonBackspace => "<-"@,
        }
    }

    /// The digit that the button enters; `None` for the two buttons that
    /// enter none.
    pub fn digit(&self) -> (digit: Option<u32>)
        ensures
            digit == self.digit_of(),
            digit matches Some(d) ==> d < 16,
    {
        match self {
            DecimalInputWidgetMessage::Button0 => Some(0),
            DecimalInputWidgetMessage::Button1 => Some(1),
            DecimalInputWidgetMessage::Button2 => Some(2),
            DecimalInputWidgetMessage::Button3 => Some(3),
            DecimalInputWidgetMessage::Button4 => Some(4),
            DecimalInputWidgetMessage::Button5 => Some(5),
            DecimalInputWidgetMessage::Button6 => Some(6),
            DecimalInputWidgetMessage::Button7 => Some(7),
            DecimalInputWidgetMessage::Button8 => Some(8),
            DecimalInputWidgetMessage::Button9 => Some(9),
            DecimalInputWidgetMessage::ButtonA => Some(10),
            DecimalInputWidgetMessage::ButtonB => Some(11),
            DecimalInputWidgetMessage::ButtonC => Some(12),
            DecimalInputWidgetMessage::ButtonD => Some(13),
            DecimalInputWidgetMessage::ButtonE => Some(14),
            DecimalInputWidgetMessage::ButtonF => Some(15),
            DecimalInputWidgetMessage::ButtonSignum => None,
            DecimalInputWidgetMessage::ButtonBackspace => None,
        }
    }

    /// What is written on the button.
    pub fn label(&self) -> (label: &'static str)
        ensures
            label@ == self.label_text(),
    {
        match self {
            DecimalInputWidgetMessage::Button0 => "0",
            DecimalInputWidgetMessage::Button1 => "1",
            DecimalInputWidgetMessage::Button2 => "2",
            DecimalInputWidgetMessage::Button3 => "3",
            DecimalInputWidgetMessage::Button4 => "4",
            DecimalInputWidgetMessage::Button5 => "5",
            DecimalInputWidgetMessage::Button6 => "6",
            DecimalInputWidgetMessage::Button7 => "7",
            DecimalInputWidgetMessage::Button8 => "8",
            DecimalInputWidgetMessage::Button9 => "9",
            DecimalInputWidgetMessage::ButtonA => "A",
            DecimalInputWidgetMessage::ButtonB => "B",
            DecimalInputWidgetMessage::ButtonC => "C",
            DecimalInputWidgetMessage::ButtonD => "D",
            DecimalInputWidgetMessage::ButtonE => "E",
            DecimalInputWidgetMessage::ButtonF => "F",
            DecimalInputWidgetMessage::ButtonSignum => "\u{c2}\u{b1}",
            DecimalInputWidgetMessage::ButtonBackspace => "<-",
        }
    }
}

/// The value after one press on a keypad of base `base`. A digit moves the
/// value one place up in that base and comes in at the bottom; what does not
/// fit in 32 bits is cut off. The sign button gives the two's complement.
/// The backspace drops the last decimal digit, whatever the base.
pub open spec fn pressed(value: u32, base: u32, message: DecimalInputWidgetMessage) -> u32 {
    match message.digit_of() {
        Some(digit) => ((value * base + digit) % 0x1_0000_0000) as u32,
        None => match message {
            DecimalInputWidgetMessage::ButtonSignum => ((0x1_0000_0000 - value) % 0x1_0000_0000) as u32,
            _ => value / 10,
        },
    }
}

/// The value after the presses in `messages`, in the order in which they
/// came.
pub open spec fn pressed_all(
    value: u32,
    base: u32,
    messages: Seq<DecimalInputWidgetMessage>,
) -> u32
    decreases messages.len(),
{
    if messages.len() == 0 {
        value
    } else {
        pressed(pressed_all(value, base, messages.drop_last()), base, messages.last())
    }
}

/// The rows of buttons on a keypad with sixteen digits.
pub open spec fn hexadecimal_rows() -> Seq<Seq<DecimalInputWidgetMessage>> {
    seq![
        seq![DecimalInputWidgetMessage::Button7, DecimalInputWidgetMessage::Button8, DecimalInputWidgetMessage::Button9, DecimalInputWidgetMessage::ButtonF],
        seq![DecimalInputWidgetMessage::Button4, DecimalInputWidgetMessage::Button5, DecimalInputWidgetMessage::Button6, DecimalInputWidgetMessage::ButtonE],
        seq![DecimalInputWidgetMessage::Button1, DecimalInputWidgetMessage::Button2, DecimalInputWidgetMessage::Button3, DecimalInputWidgetMessage::ButtonD],
        seq![DecimalInputWidgetMessage::Button0, DecimalInputWidgetMessage::ButtonA, DecimalInputWidgetMessage::ButtonB, DecimalInputWidgetMessage::ButtonC],
    ]
}

/// The rows of buttons on a keypad with ten digits, a sign button and a
/// backspace.
pub open spec fn decimal_rows() -> Seq<Seq<DecimalInputWidgetMessage>> {
    seq![
        seq![DecimalInputWidgetMessage::Button7, DecimalInputWidgetMessage::Button8, DecimalInputWidgetMessage::Button9],
        seq![DecimalInputWidgetMessage::Button4, DecimalInputWidgetMessage::Button5, DecimalInputWidgetMessage::Button6],
        seq![DecimalInputWidgetMessage::Button1, DecimalInputWidgetMessage::Button2, DecimalInputWidgetMessage::Button3],
        seq![DecimalInputWidgetMessage::Button0, DecimalInputWidgetMessage::ButtonSignum, DecimalInputWidgetMessage::ButtonBackspace],
    ]
}

/// The rows of buttons on a keypad with eight digits.
pub open spec fn octal_rows() -> Seq<Seq<DecimalInputWidgetMessage>> {
    seq![
        seq![DecimalInputWidgetMessage::Button4, DecimalInputWidgetMessage::Button5, DecimalInputWidgetMessage::Button6, DecimalInputWidgetMessage::Button7],
        seq![DecimalInputWidgetMessage::Button0, DecimalInputWidgetMessage::Button1, DecimalInputWidgetMessage::Button2, DecimalInputWidgetMessage::Button3],
    ]
}

/// The rows of buttons on the keypad of `input_type`, from the top row down.
pub open spec fn keypad_rows(input_type: InputType) -> Seq<Seq<DecimalInputWidgetMessage>> {
    match input_type {
        InputType::Octal => octal_rows(),
        InputType::Decimal => decimal_rows(),
        InputType::Hexadecimal => hexadecimal_rows(),
    }
}

/// `rows` holds the buttons of `expected`, row by row.
pub open spec fn rows_are(
    rows: Seq<Vec<DecimalInputWidgetMessage>>,
    expected: Seq<Seq<DecimalInputWidgetMessage>>,
) -> bool {
    &&& rows.len() == expected.len()
    &&& forall|row: int| 0 <= row < rows.len() ==> (#[trigger] rows[row])@ == expected[row]
}

/// The value after one press on a keypad of base `base`.
pub fn press(value: u32, base: u32, message: &DecimalInputWidgetMessage) -> (next: u32)
    ensures
        next == pressed(value, base, *message),
{
    match message.digit() {
        Some(digit) => {
            let scaled = value.wrapping_mul(base);
            let next = scaled.wrapping_add(digit);
            proof {
                let product = value as nat * base as nat;
                assert(value * base == product);
                assert(scaled == product % 0x1_0000_0000);
                assert(next == (product + digit) % 0x1_0000_0000);
            }
            next
        },
        None => match message {
            DecimalInputWidgetMessage::ButtonSignum => negate(value),
            _ => value / 10,
        },
    }
}

/// The rows of buttons on a keypad with sixteen digits.
pub fn hexadecimal_keypad() -> (rows: Vec<Vec<DecimalInputWidgetMessage>>)
    ensures
        rows_are(rows@, hexadecimal_rows()),
{
    let rows = vec![
        vec![DecimalInputWidgetMessage::Button7, DecimalInputWidgetMessage::Button8, DecimalInputWidgetMessage::Button9, DecimalInputWidgetMessage::ButtonF],
        vec![DecimalInputWidgetMessage::Button4, DecimalInputWidgetMessage::Button5, DecimalInputWidgetMessage::Button6, DecimalInputWidgetMessage::ButtonE],
        vec![DecimalInputWidgetMessage::Button1, DecimalInputWidgetMessage::Button2, DecimalInputWidgetMessage::Button3, DecimalInputWidgetMessage::ButtonD],
        vec![DecimalInputWidgetMessage::Button0, DecimalInputWidgetMessage::ButtonA, DecimalInputWidgetMessage::ButtonB, DecimalInputWidgetMessage::ButtonC],
    ];
    assert(rows@[0]@ =~= hexadecimal_rows()[0]);
    assert(rows@[1]@ =~= hexadecimal_rows()[1]);
    assert(rows@[2]@ =~= hexadecimal_rows()[2]);
    assert(rows@[3]@ =~= hexadecimal_rows()[3]);
    rows
}

/// The rows of buttons on a keypad with ten digits, a sign button and a
/// backspace.
pub fn decimal_keypad() -> (rows: Vec<Vec<DecimalInputWidgetMessage>>)
    ensures
        rows_are(rows@, decimal_rows()),
{
    let rows = vec![
        vec![DecimalInputWidgetMessage::Button7, DecimalInputWidgetMessage::Button8, DecimalInputWidgetMessage::Button9],
        vec![DecimalInputWidgetMessage::Button4, DecimalInputWidgetMessage::Button5, DecimalInputWidgetMessage::Button6],
        vec![DecimalInputWidgetMessage::Button1, DecimalInputWidgetMessage::Button2, DecimalInputWidgetMessage::Button3],
        vec![DecimalInputWidgetMessage::Button0, DecimalInputWidgetMessage::ButtonSignum, DecimalInputWidgetMessage::ButtonBackspace],
    ];
    assert(rows@[0]@ =~= decimal_rows()[0]);
    assert(rows@[1]@ =~= decimal_rows()[1]);
    assert(rows@[2]@ =~= decimal_rows()[2]);
    assert(rows@[3]@ =~= decimal_rows()[3]);
    rows
}

/// The rows of buttons on a keypad with eight digits.
pub fn octal_keypad() -> (rows: Vec<Vec<DecimalInputWidgetMessage>>)
    ensures
        rows_are(rows@, octal_rows()),
{
    let rows = vec![
        vec![DecimalInputWidgetMessage::Button4, DecimalInputWidgetMessage::Button5, DecimalInputWidgetMessage::Button6, DecimalInputWidgetMessage::Button7],
        vec![DecimalInputWidgetMessage::Button0, DecimalInputWidgetMessage::Button1, DecimalInputWidgetMessage::Button2, DecimalInputWidgetMessage::Button3],
    ];
    assert(rows@[0]@ =~= octal_rows()[0]);
    assert(rows@[1]@ =~= octal_rows()[1]);
    rows
}

/// Takes the presses in `messages`, in their order, on a keypad of base
/// `base`.
pub fn press_all(value: u32, base: u32, messages: &Vec<DecimalInputWidgetMessage>) -> (next: u32)
    ensures
        next == pressed_all(value, base, messages@),
{
    let mut next = value;
    let mut done: usize = 0;
    while done < messages.len()
        invariant
            done <= messages@.len(),
            next == pressed_all(value, base, messages@.take(done as int)),
        decreases messages@.len() - done,
    {
        proof {
            let upto = messages@.take(done + 1);
            assert(upto.drop_last() =~= messages@.take(done as int));
            assert(upto.last() == messages@[done as int]);
        }
        next = press(next, base, &messages[done]);
        done += 1;
    }
    assert(messages@.take(done as int) =~= messages@);
    next
}

/// A keypad: the value it works on, its numeral system and the measures it
/// is drawn with.
#[derive(Debug, Clone, Copy, PartialEq, Eq, Structural)]
pub struct NumericInputWidget {
    /// The value that the presses change.
    pub value: u32,
    /// The width of the widget.
    pub width: Length,
    /// The height of the widget.
    pub height: Length,
    /// The maximum height of the widget.
    pub max_height: u32,
    /// The text size.
    pub text_size: u16,
    /// The padding around the buttons.
    pub padding: u16,
    /// The spacing around the buttons.
    pub spacing: u16,
    /// The numeral system of the keypad.
    pub input_type: InputType,
}

impl NumericInputWidget {
    /// A keypad of `input_type` on `value`, with the default measures.
    pub fn new(value: u32, input_type: InputType) -> (widget: Self)
        ensures
            widget == (NumericInputWidget {
                value,
                width: Length::Fill,
                height: Length::Units(40),
                max_height: u32::MAX,
                text_size: DEFAULT_TEXT_SIZE,
                padding: DEFAULT_PADDING,
                spacing: DEFAULT_SPACING,
                input_type,
            }),
    {
        NumericInputWidget {
            value,
            width: Length::Fill,
            height: Length::Units(40),
            max_height: u32::MAX,
            text_size: DEFAULT_TEXT_SIZE,
            padding: DEFAULT_PADDING,
            spacing: DEFAULT_SPACING,
            input_type,
        }
    }

    /// Sets the width.
    #[must_use]
    pub fn width(self, width: Length) -> (widget: Self)
        ensures
            widget == (NumericInputWidget { width, ..self }),
    {
        NumericInputWidget { width, ..self }
    }

    /// Gets the width.
    #[must_use]
    pub fn get_width(&self) -> (width: Length)
        ensures
            width == self.width,
    {
        self.width
    }

    /// Sets the height.
    #[must_use]
    pub fn height(self, height: Length) -> (widget: Self)
        ensures
            widget == (NumericInputWidget { height, ..self }),
    {
        NumericInputWidget { height, ..self }
    }

    /// Gets the height.
    #[must_use]
    pub fn get_height(&self) -> (height: Length)
        ensures
            height == self.height,
    {
        self.height
    }

    /// Sets the maximum height.
    #[must_use]
    pub fn max_height(self, max_height: u32) -> (widget: Self)
        ensures
            widget == (NumericInputWidget { max_height, ..self }),
    {
        NumericInputWidget { max_height, ..self }
    }

    /// Sets the text size.
    #[must_use]
    pub fn text_size(self, text_size: u16) -> (widget: Self)
        ensures
            widget == (NumericInputWidget { text_size, ..self }),
    {
        NumericInputWidget { text_size, ..self }
    }

    /// Sets the padding around the buttons.
    #[must_use]
    pub fn padding(self, padding: u16) -> (widget: Self)
        ensures
            widget == (NumericInputWidget { padding, ..self }),
    {
        NumericInputWidget { padding, ..self }
    }

    /// Sets the spacing around the buttons.
    #[must_use]
    pub fn spacing(self, spacing: u16) -> (widget: Self)
        ensures
            widget == (NumericInputWidget { spacing, ..self }),
    {
        NumericInputWidget { spacing, ..self }
    }

    /// The rows of buttons that the keypad shows, from the top row down.
    pub fn content(&self) -> (rows: Vec<Vec<DecimalInputWidgetMessage>>)
        ensures
            rows_are(rows@, keypad_rows(self.input_type)),
    {
        match self.input_type {
            InputType::Octal => octal_keypad(),
            InputType::Decimal => decimal_keypad(),
            InputType::Hexadecimal => hexadecimal_keypad(),
        }
    }

    /// Takes the presses that one event set off, in their order, and says
    /// what is to be announced: the new value where there was any press,
    /// nothing where there was none.
    pub fn on_event(&mut self, messages: &Vec<DecimalInputWidgetMessage>) -> (changed: Option<u32>)
        ensures
            *final(self) == (NumericInputWidget {
                value: pressed_all(old(self).value, old(self).input_type.radix(), messages@),
                ..*old(self)
            }),
            changed == (if messages@.len() > 0 {
                Some(final(self).value)
            } else {
                None
            }),
    {
        let value = press_all(self.value, self.input_type.base(), messages);
        self.value = value;
        if messages.len() > 0 {
            Some(value)
        } else {
            None
        }
    }
}

} // verus!
