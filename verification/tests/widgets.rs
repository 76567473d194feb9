use binary_calculator::binary_field_widget::{
    create_cell, get_bit, tooltip, BinaryFieldWidget, BinaryFieldWidgetMessage,
    DEFAULT_GROUP_SPACING, DEFAULT_PADDING, DEFAULT_SPACING, DEFAULT_TEXT_SIZE,
};
use binary_calculator::decimal_input_widget::DecimalInputWidget;
use binary_calculator::length::Length;
use binary_calculator::numeric_input_widget::{
    decimal_keypad, hexadecimal_keypad, octal_keypad, press, press_all,
    DecimalInputWidgetMessage, InputType, NumericInputWidget,
};

const TOOLTIPS: [&str; 32] = [
    "0 [1]", "1 [2]", "2 [4]", "3 [8]", "4 [16]", "5 [32]", "6 [64]", "7 [128]", "8 [256]",
    "9 [512]", "10 [1K]", "11 [2K]", "12 [4K]", "13 [8K]", "14 [16K]", "15 [32K]", "16 [64K]",
    "17 [128K]", "18 [256K]", "19 [512K]", "20 [1M]", "21 [2M]", "22 [4M]", "23 [8M]",
    "24 [16M]", "25 [32M]", "26 [64M]", "27 [128M]", "28 [256M]", "29 [512M]", "30 [1G]",
    "31 [2G]",
];

#[test]
fn tooltips_name_bit_and_weight() {
    for index in 0..32u8 {
        assert_eq!(tooltip(index), TOOLTIPS[index as usize]);
    }
}

#[test]
fn cells_are_labelled_at_group_edges() {
    for index in 0..32u8 {
        let cell = create_cell(0x1234_5678, index);
        assert_eq!(cell.index, index);
        assert_eq!(cell.checked, get_bit(0x1234_5678, index));
        assert_eq!(cell.tooltip, TOOLTIPS[index as usize]);
        if index % 4 == 0 || index % 4 == 3 {
            assert_eq!(cell.label, Some(index.to_string()));
        } else {
            assert_eq!(cell.label, None);
        }
    }
}

#[test]
fn content_has_eight_groups_msb_first() {
    let value = 0xA000_0005;
    let content = BinaryFieldWidget::create_content(value, 2, 6, 16, Length::Units(40));
    assert_eq!(content.spacing, 2);
    assert_eq!(content.group_spacing, 6);
    assert_eq!(content.text_size, 16);
    assert_eq!(content.height, Length::Units(40));
    assert_eq!(content.groups.len(), 8);
    let mut expected = 31i32;
    for group in &content.groups {
        assert_eq!(group.len(), 4);
        for cell in group {
            assert_eq!(cell.index as i32, expected);
            assert_eq!(cell.checked, (value >> expected) & 1 == 1);
            expected -= 1;
        }
    }
    assert_eq!(expected, -1);
    assert_eq!(content.groups[0][0].label, Some("31".to_string()));
    assert_eq!(content.groups[0][1].label, None);
    assert_eq!(content.groups[0][3].label, Some("28".to_string()));
    assert_eq!(content.groups[7][3].label, Some("0".to_string()));
    assert_eq!(content.groups[0][0].tooltip, "31 [2G]");
}

#[test]
fn bit_message_round_trip() {
    for index in 0..32u8 {
        for value in [true, false] {
            let message = BinaryFieldWidgetMessage::from_bit(index, value);
            assert_eq!(message.index(), index);
            assert_eq!(message.value(), value);
        }
    }
    assert_eq!(BinaryFieldWidgetMessage::from_bit(0, true), BinaryFieldWidgetMessage::Bit0(true));
    assert_eq!(
        BinaryFieldWidgetMessage::from_bit(17, false),
        BinaryFieldWidgetMessage::Bit17(false)
    );
    assert_eq!(BinaryFieldWidgetMessage::Bit31(true).index(), 31);
}

#[test]
fn bit_field_defaults_and_builders() {
    let widget = BinaryFieldWidget::new(7);
    assert_eq!(widget.value, 7);
    assert_eq!(widget.get_width(), Length::Fill);
    assert_eq!(widget.get_height(), Length::Units(40));
    assert_eq!(widget.max_height, u32::MAX);
    assert_eq!(widget.text_size, DEFAULT_TEXT_SIZE);
    assert_eq!(widget.padding, DEFAULT_PADDING);
    assert_eq!(widget.spacing, DEFAULT_SPACING);
    assert_eq!(widget.group_spacing, DEFAULT_GROUP_SPACING);
    let widget = widget
        .width(Length::Shrink)
        .height(Length::Units(50))
        .max_height(99)
        .text_size(20)
        .padding(1)
        .spacing(3)
        .group_spacing(9);
    assert_eq!(
        widget,
        BinaryFieldWidget {
            value: 7,
            width: Length::Shrink,
            height: Length::Units(50),
            max_height: 99,
            text_size: 20,
            padding: 1,
            spacing: 3,
            group_spacing: 9,
        }
    );
    let content = widget.content();
    assert_eq!(content.height, Length::Units(50));
    assert_eq!(content.text_size, 20);
    assert_eq!(content.spacing, 3);
    assert_eq!(content.group_spacing, 9);
    assert!(content.groups[7][3].checked);
    assert!(content.groups[7][1].checked);
    assert!(!content.groups[7][0].checked);
}

#[test]
fn bit_field_event_applies_toggles_in_order() {
    let mut widget = BinaryFieldWidget::new(0);
    assert_eq!(widget.on_event(&vec![]), None);
    assert_eq!(widget.value, 0);
    let changed = widget.on_event(&vec![
        BinaryFieldWidgetMessage::Bit3(true),
        BinaryFieldWidgetMessage::Bit0(true),
        BinaryFieldWidgetMessage::Bit3(false),
        BinaryFieldWidgetMessage::Bit31(true),
    ]);
    assert_eq!(changed, Some(0x8000_0001));
    assert_eq!(widget.value, 0x8000_0001);
    assert_eq!(widget.on_event(&vec![BinaryFieldWidgetMessage::Bit0(true)]), Some(0x8000_0001));
    assert!(widget.content().groups[0][0].checked);
}

#[test]
fn keypad_accumulates_digits() {
    let digits = vec![
        DecimalInputWidgetMessage::Button1,
        DecimalInputWidgetMessage::Button2,
        DecimalInputWidgetMessage::Button3,
    ];
    assert_eq!(press_all(0, 10, &digits), 123);
    assert_eq!(press_all(0, 16, &digits), 0x123);
    assert_eq!(press_all(0, 16, &digits), 291);
    assert_eq!(press_all(0, 8, &digits), 0o123);
    let mut decimal = NumericInputWidget::new(0, InputType::Decimal);
    assert_eq!(decimal.on_event(&digits), Some(123));
    let mut hexadecimal = NumericInputWidget::new(0, InputType::Hexadecimal);
    assert_eq!(hexadecimal.on_event(&digits), Some(291));
    assert_eq!(hexadecimal.value, 291);
}

#[test]
fn keypad_zero_moves_up_one_place_in_the_base() {
    assert_eq!(press(5, 10, &DecimalInputWidgetMessage::Button0), 50);
    assert_eq!(press(5, 16, &DecimalInputWidgetMessage::Button0), 0x50);
    assert_eq!(press(5, 8, &DecimalInputWidgetMessage::Button0), 0o50);
}

#[test]
fn keypad_letters_enter_ten_to_fifteen() {
    assert_eq!(press(1, 16, &DecimalInputWidgetMessage::ButtonA), 0x1A);
    assert_eq!(press(1, 16, &DecimalInputWidgetMessage::ButtonB), 0x1B);
    assert_eq!(press(1, 16, &DecimalInputWidgetMessage::ButtonC), 0x1C);
    assert_eq!(press(1, 16, &DecimalInputWidgetMessage::ButtonD), 0x1D);
    assert_eq!(press(1, 16, &DecimalInputWidgetMessage::ButtonE), 0x1E);
    assert_eq!(press(1, 16, &DecimalInputWidgetMessage::ButtonF), 0x1F);
    assert_eq!(press(1, 10, &DecimalInputWidgetMessage::ButtonF), 25);
}

#[test]
fn keypad_wraps_at_32_bits() {
    assert_eq!(press(0xFFFF_FFFF, 10, &DecimalInputWidgetMessage::Button9), 0xFFFF_FFFF);
    assert_eq!(press(0x1000_0000, 16, &DecimalInputWidgetMessage::Button1), 1);
    assert_eq!(press(429_496_729, 10, &DecimalInputWidgetMessage::Button6), 0);
    assert_eq!(
        press(0xDEAD_BEEF, 10, &DecimalInputWidgetMessage::Button7),
        0xDEAD_BEEFu32.wrapping_mul(10).wrapping_add(7)
    );
}

#[test]
fn backspace_divides_by_ten_in_every_base() {
    for base in [8, 10, 16] {
        assert_eq!(press(123, base, &DecimalInputWidgetMessage::ButtonBackspace), 12);
        assert_eq!(press(9, base, &DecimalInputWidgetMessage::ButtonBackspace), 0);
    }
    for input_type in [InputType::Octal, InputType::Decimal, InputType::Hexadecimal] {
        let mut widget = NumericInputWidget::new(123, input_type);
        assert_eq!(widget.on_event(&vec![DecimalInputWidgetMessage::ButtonBackspace]), Some(12));
    }
}

#[test]
fn sign_button_negates() {
    assert_eq!(press(1, 10, &DecimalInputWidgetMessage::ButtonSignum), 0xFFFF_FFFF);
    assert_eq!(press(0, 10, &DecimalInputWidgetMessage::ButtonSignum), 0);
    assert_eq!(press(0x8000_0000, 10, &DecimalInputWidgetMessage::ButtonSignum), 0x8000_0000);
    let twice = press_all(
        77,
        10,
        &vec![DecimalInputWidgetMessage::ButtonSignum, DecimalInputWidgetMessage::ButtonSignum],
    );
    assert_eq!(twice, 77);
}

#[test]
fn input_type_bases() {
    assert_eq!(InputType::Octal.base(), 8);
    assert_eq!(InputType::Decimal.base(), 10);
    assert_eq!(InputType::Hexadecimal.base(), 16);
}

#[test]
fn button_digits_and_labels() {
    assert_eq!(DecimalInputWidgetMessage::Button0.digit(), Some(0));
    assert_eq!(DecimalInputWidgetMessage::Button9.digit(), Some(9));
    assert_eq!(DecimalInputWidgetMessage::ButtonA.digit(), Some(10));
    assert_eq!(DecimalInputWidgetMessage::ButtonF.digit(), Some(15));
    assert_eq!(DecimalInputWidgetMessage::ButtonSignum.digit(), None);
    assert_eq!(DecimalInputWidgetMessage::ButtonBackspace.digit(), None);
    assert_eq!(DecimalInputWidgetMessage::Button7.label(), "7");
    assert_eq!(DecimalInputWidgetMessage::ButtonC.label(), "C");
    assert_eq!(DecimalInputWidgetMessage::ButtonBackspace.label(), "<-");
    assert_eq!(DecimalInputWidgetMessage::ButtonSignum.label(), "\u{c2}\u{b1}");
}

#[test]
fn keypad_layouts() {
    assert_eq!(
        hexadecimal_keypad(),
        vec![
            vec![DecimalInputWidgetMessage::Button7, DecimalInputWidgetMessage::Button8, DecimalInputWidgetMessage::Button9, DecimalInputWidgetMessage::ButtonF],
            vec![DecimalInputWidgetMessage::Button4, DecimalInputWidgetMessage::Button5, DecimalInputWidgetMessage::Button6, DecimalInputWidgetMessage::ButtonE],
            vec![DecimalInputWidgetMessage::Button1, DecimalInputWidgetMessage::Button2, DecimalInputWidgetMessage::Button3, DecimalInputWidgetMessage::ButtonD],
            vec![DecimalInputWidgetMessage::Button0, DecimalInputWidgetMessage::ButtonA, DecimalInputWidgetMessage::ButtonB, DecimalInputWidgetMessage::ButtonC],
        ]
    );
    assert_eq!(
        decimal_keypad(),
        vec![
            vec![DecimalInputWidgetMessage::Button7, DecimalInputWidgetMessage::Button8, DecimalInputWidgetMessage::Button9],
            vec![DecimalInputWidgetMessage::Button4, DecimalInputWidgetMessage::Button5, DecimalInputWidgetMessage::Button6],
            vec![DecimalInputWidgetMessage::Button1, DecimalInputWidgetMessage::Button2, DecimalInputWidgetMessage::Button3],
            vec![DecimalInputWidgetMessage::Button0, DecimalInputWidgetMessage::ButtonSignum, DecimalInputWidgetMessage::ButtonBackspace],
        ]
    );
    assert_eq!(
        octal_keypad(),
        vec![
            vec![DecimalInputWidgetMessage::Button4, DecimalInputWidgetMessage::Button5, DecimalInputWidgetMessage::Button6, DecimalInputWidgetMessage::Button7],
            vec![DecimalInputWidgetMessage::Button0, DecimalInputWidgetMessage::Button1, DecimalInputWidgetMessage::Button2, DecimalInputWidgetMessage::Button3],
        ]
    );
    assert_eq!(NumericInputWidget::new(0, InputType::Octal).content(), octal_keypad());
    assert_eq!(NumericInputWidget::new(0, InputType::Decimal).content(), decimal_keypad());
    assert_eq!(NumericInputWidget::new(0, InputType::Hexadecimal).content(), hexadecimal_keypad());
    assert_eq!(DecimalInputWidget::new(0, true).content(), hexadecimal_keypad());
    assert_eq!(DecimalInputWidget::new(0, false).content(), decimal_keypad());
}

#[test]
fn numeric_widget_defaults_and_builders() {
    let widget = NumericInputWidget::new(5, InputType::Octal);
    assert_eq!(widget.value, 5);
    assert_eq!(widget.input_type, InputType::Octal);
    assert_eq!(widget.get_width(), Length::Fill);
    assert_eq!(widget.get_height(), Length::Units(40));
    assert_eq!(widget.max_height, u32::MAX);
    assert_eq!(widget.text_size, 16);
    assert_eq!(widget.padding, 5);
    assert_eq!(widget.spacing, 0);
    let widget = widget
        .width(Length::FillPortion(2))
        .height(Length::Shrink)
        .max_height(10)
        .text_size(11)
        .padding(12)
        .spacing(13);
    assert_eq!(
        widget,
        NumericInputWidget {
            value: 5,
            width: Length::FillPortion(2),
            height: Length::Shrink,
            max_height: 10,
            text_size: 11,
            padding: 12,
            spacing: 13,
            input_type: InputType::Octal,
        }
    );
    let mut widget = widget;
    assert_eq!(widget.on_event(&vec![]), None);
    assert_eq!(widget.value, 5);
}

#[test]
fn decimal_widget_defaults_builders_and_events() {
    let widget = DecimalInputWidget::decimal_input_widget(5, true);
    assert_eq!(widget, DecimalInputWidget::new(5, true));
    assert_eq!(widget.value, 5);
    assert!(widget.hex);
    assert_eq!(widget.get_width(), Length::Fill);
    assert_eq!(widget.get_height(), Length::Units(40));
    let widget = widget
        .width(Length::Units(1))
        .height(Length::Units(2))
        .max_height(3)
        .text_size(4)
        .padding(5)
        .spacing(6);
    assert_eq!(
        widget,
        DecimalInputWidget {
            value: 5,
            width: Length::Units(1),
            height: Length::Units(2),
            max_height: 3,
            text_size: 4,
            padding: 5,
            spacing: 6,
            hex: true,
        }
    );
    let mut hexadecimal = widget;
    assert_eq!(hexadecimal.on_event(&vec![DecimalInputWidgetMessage::ButtonA]), Some(0x5A));
    let mut decimal = DecimalInputWidget::new(5, false);
    assert_eq!(decimal.on_event(&vec![DecimalInputWidgetMessage::Button1]), Some(51));
    assert_eq!(decimal.on_event(&vec![]), None);
    assert_eq!(decimal.value, 51);
}
