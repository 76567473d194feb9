//! The row of thirty-two checkboxes, one per bit of the value.

use crate::bits::{bit_at, lemma_with_bit_reads_back, with_bit};
use crate::digits::{push_radix, radix_text};
use crate::length::Length;
use vstd::prelude::*;
use vstd::string::*;

verus! {

/// The default text size.
pub const DEFAULT_TEXT_SIZE: u16 = 16;

/// The default padding around the checkboxes.
pub const DEFAULT_PADDING: u16 = 5;

/// The default spacing between the checkboxes.
pub const DEFAULT_SPACING: u16 = 2;

/// The default spacing between the groups of checkboxes.
pub const DEFAULT_GROUP_SPACING: u16 = 6;

/// Whether bit `offset` of `value` is set.
pub fn get_bit(value: u32, offset: u8) -> (bit: bool)
    requires
        offset < 32,
    ensures
        bit == bit_at(value, offset as u32),
{
    let mask = 1_u32 << offset;
    let shift = offset as u32;
    assert((value & (1u32 << shift) > 0) == ((value >> shift) & 1 == 1)) by (bit_vector)
        requires
            shift < 32,
    ;
    assert(1u32 << offset == 1u32 << shift) by (bit_vector)
        requires
            shift == offset as u32,
            offset < 32,
    ;
    value & mask > 0
}

/// `value` with bit `offset` forced to `bit`; every other bit stays as it is.
pub fn put_bit(value: u32, bit: &bool, offset: u8) -> (changed: u32)
    requires
        offset < 32,
    ensures
        changed == with_bit(value, offset as u32, *bit),
        forall|index: u32|
            index < 32 ==> bit_at(changed, index) == (if index == offset {
                *bit
            } else {
                bit_at(value, index)
            }),
{
    let shift = offset as u32;
    assert(1u32 << offset == 1u32 << shift) by (bit_vector)
        requires
            shift == offset as u32,
            offset < 32,
    ;
    let mut changed = value;
    if *bit {
        let mask = 1_u32 << offset;
        changed |= mask;
    } else {
        let mask = !(1_u32 << offset);
        changed &= mask;
    }
    proof {
        assert forall|index: u32| index < 32 implies bit_at(changed, index) == if index == offset {
            *bit
        } else {
            bit_at(value, index)
        } by {
            lemma_with_bit_reads_back(value, shift, *bit, index);
        }
    }
    changed
}

/// A checkbox was toggled: the variant names the bit, the payload is the
/// state that the checkbox now shows.
#[derive(Debug, Clone, Copy, PartialEq, Eq, Structural)]
pub enum BinaryFieldWidgetMessage {
    Bit0(bool),
    Bit1(bool),
    Bit2(bool),
    Bit3(bool),
    Bit4(bool),
    Bit5(bool),
    Bit6(bool),
    Bit7(bool),
    Bit8(bool),
    Bit9(bool),
    Bit10(bool),
    Bit11(bool),
    Bit12(bool),
    Bit13(bool),
    Bit14(bool),
    Bit15(bool),
    Bit16(bool),
    Bit17(bool),
    Bit18(bool),
    Bit19(bool),
    Bit20(bool),
    Bit21(bool),
    Bit22(bool),
    Bit23(bool),
    Bit24(bool),
    Bit25(bool),
    Bit26(bool),
    Bit27(bool),
    Bit28(bool),
    Bit29(bool),
    Bit30(bool),
    Bit31(bool),
}

impl BinaryFieldWidgetMessage {
    /// The bit that the message is about.
    pub open spec fn lane(self) -> u32 {
        match self {
            BinaryFieldWidgetMessage::Bit0(_) => 0,
            BinaryFieldWidgetMessage::Bit1(_) => 1,
            BinaryFieldWidgetMessage::Bit2(_) => 2,
            BinaryFieldWidgetMessage::Bit3(_) => 3,
            BinaryFieldWidgetMessage::Bit4(_) => 4,
            BinaryFieldWidgetMessage::Bit5(_) => 5,
            BinaryFieldWidgetMessage::Bit6(_) => 6,
            BinaryFieldWidgetMessage::Bit7(_) => 7,
            BinaryFieldWidgetMessage::Bit8(_) => 8,
            BinaryFieldWidgetMessage::Bit9(_) => 9,
            BinaryFieldWidgetMessage::Bit10(_) => 10,
            BinaryFieldWidgetMessage::Bit11(_) => 11,
            BinaryFieldWidgetMessage::Bit12(_) => 12,
            BinaryFieldWidgetMessage::Bit13(_) => 13,
            BinaryFieldWidgetMessage::Bit14(_) => 14,
            BinaryFieldWidgetMessage::Bit15(_) => 15,
            BinaryFieldWidgetMessage::Bit16(_) => 16,
            BinaryFieldWidgetMessage::Bit17(_) => 17,
            BinaryFieldWidgetMessage::Bit18(_) => 18,
            BinaryFieldWidgetMessage::Bit19(_) => 19,
            BinaryFieldWidgetMessage::Bit20(_) => 20,
            BinaryFieldWidgetMessage::Bit21(_) => 21,
            BinaryFieldWidgetMessage::Bit22(_) => 22,
            BinaryFieldWidgetMessage::Bit23(_) => 23,
            BinaryFieldWidgetMessage::Bit24(_) => 24,
            BinaryFieldWidgetMessage::Bit25(_) => 25,
            BinaryFieldWidgetMessage::Bit26(_) => 26,
            BinaryFieldWidgetMessage::Bit27(_) => 27,
            BinaryFieldWidgetMessage::Bit28(_) => 28,
            BinaryFieldWidgetMessage::Bit29(_) => 29,
            BinaryFieldWidgetMessage::Bit30(_) => 30,
            BinaryFieldWidgetMessage::Bit31(_) => 31,
        }
    }

    /// The state that the bit is to take.
    pub open spec fn flag(self) -> bool {
        match self {
            BinaryFieldWidgetMessage::Bit0(flag)
            | BinaryFieldWidgetMessage::Bit1(flag)
            | BinaryFieldWidgetMessage::Bit2(flag)
            | BinaryFieldWidgetMessage::Bit3(flag)
            | BinaryFieldWidgetMessage::Bit4(flag)
            | BinaryFieldWidgetMessage::Bit5(flag)
            | BinaryFieldWidgetMessage::Bit6(flag)
            | BinaryFieldWidgetMessage::Bit7(flag)
            | BinaryFieldWidgetMessage::Bit8(flag)
            | BinaryFieldWidgetMessage::Bit9(flag)
            | BinaryFieldWidgetMessage::Bit10(flag)
            | BinaryFieldWidgetMessage::Bit11(flag)
            | BinaryFieldWidgetMessage::Bit12(flag)
            | BinaryFieldWidgetMessage::Bit13(flag)
            | BinaryFieldWidgetMessage::Bit14(flag)
            | BinaryFieldWidgetMessage::Bit15(flag)
            | BinaryFieldWidgetMessage::Bit16(flag)
            | BinaryFieldWidgetMessage::Bit17(flag)
            | BinaryFieldWidgetMessage::Bit18(flag)
            | BinaryFieldWidgetMessage::Bit19(flag)
            | BinaryFieldWidgetMessage::Bit20(flag)
            | BinaryFieldWidgetMessage::Bit21(flag)
            | BinaryFieldWidgetMessage::Bit22(flag)
            | BinaryFieldWidgetMessage::Bit23(flag)
            | BinaryFieldWidgetMessage::Bit24(flag)
            | BinaryFieldWidgetMessage::Bit25(flag)
            | BinaryFieldWidgetMessage::Bit26(flag)
            | BinaryFieldWidgetMessage::Bit27(flag)
            | BinaryFieldWidgetMessage::Bit28(flag)
            | BinaryFieldWidgetMessage::Bit29(flag)
            | BinaryFieldWidgetMessage::Bit30(flag)
            | BinaryFieldWidgetMessage::Bit31(flag) => flag,
        }
    }

    /// The bit that the message is about.
    pub fn index(&self) -> (index: u8)
        ensures
            index == self.lane(),
            index < 32,
    {
        match self {
            BinaryFieldWidgetMessage::Bit0(_) => 0,
            BinaryFieldWidgetMessage::Bit1(_) => 1,
            BinaryFieldWidgetMessage::Bit2(_) => 2,
            BinaryFieldWidgetMessage::Bit3(_) => 3,
            BinaryFieldWidgetMessage::Bit4(_) => 4,
            BinaryFieldWidgetMessage::Bit5(_) => 5,
            BinaryFieldWidgetMessage::Bit6(_) => 6,
            BinaryFieldWidgetMessage::Bit7(_) => 7,
            BinaryFieldWidgetMessage::Bit8(_) => 8,
            BinaryFieldWidgetMessage::Bit9(_) => 9,
            BinaryFieldWidgetMessage::Bit10(_) => 10,
            BinaryFieldWidgetMessage::Bit11(_) => 11,
            BinaryFieldWidgetMessage::Bit12(_) => 12,
            BinaryFieldWidgetMessage::Bit13(_) => 13,
            BinaryFieldWidgetMessage::Bit14(_) => 14,
            BinaryFieldWidgetMessage::Bit15(_) => 15,
            BinaryFieldWidgetMessage::Bit16(_) => 16,
            BinaryFieldWidgetMessage::Bit17(_) => 17,
            BinaryFieldWidgetMessage::Bit18(_) => 18,
            BinaryFieldWidgetMessage::Bit19(_) => 19,
            BinaryFieldWidgetMessage::Bit20(_) => 20,
            BinaryFieldWidgetMessage::Bit21(_) => 21,
            BinaryFieldWidgetMessage::Bit22(_) => 22,
            BinaryFieldWidgetMessage::Bit23(_) => 23,
            BinaryFieldWidgetMessage::Bit24(_) => 24,
            BinaryFieldWidgetMessage::Bit25(_) => 25,
            BinaryFieldWidgetMessage::Bit26(_) => 26,
            BinaryFieldWidgetMessage::Bit27(_) => 27,
            BinaryFieldWidgetMessage::Bit28(_) => 28,
            BinaryFieldWidgetMessage::Bit29(_) => 29,
            BinaryFieldWidgetMessage::Bit30(_) => 30,
            BinaryFieldWidgetMessage::Bit31(_) => 31,
        }
    }

    /// The state that the bit is to take.
    pub fn value(&self) -> (value: bool)
        ensures
            value == self.flag(),
    {
        match self {
            BinaryFieldWidgetMessage::Bit0(flag)
            | BinaryFieldWidgetMessage::Bit1(flag)
            | BinaryFieldWidgetMessage::Bit2(flag)
            | BinaryFieldWidgetMessage::Bit3(flag)
            | BinaryFieldWidgetMessage::Bit4(flag)
            | BinaryFieldWidgetMessage::Bit5(flag)
            | BinaryFieldWidgetMessage::Bit6(flag)
            | BinaryFieldWidgetMessage::Bit7(flag)
            | BinaryFieldWidgetMessage::Bit8(flag)
            | BinaryFieldWidgetMessage::Bit9(flag)
            | BinaryFieldWidgetMessage::Bit10(flag)
            | BinaryFieldWidgetMessage::Bit11(flag)
            | BinaryFieldWidgetMessage::Bit12(flag)
            | BinaryFieldWidgetMessage::Bit13(flag)
            | BinaryFieldWidgetMessage::Bit14(flag)
            | BinaryFieldWidgetMessage::Bit15(flag)
            | BinaryFieldWidgetMessage::Bit16(flag)
            | BinaryFieldWidgetMessage::Bit17(flag)
            | BinaryFieldWidgetMessage::Bit18(flag)
            | BinaryFieldWidgetMessage::Bit19(flag)
            | BinaryFieldWidgetMessage::Bit20(flag)
            | BinaryFieldWidgetMessage::Bit21(flag)
            | BinaryFieldWidgetMessage::Bit22(flag)
            | BinaryFieldWidgetMessage::Bit23(flag)
            | BinaryFieldWidgetMessage::Bit24(flag)
            | BinaryFieldWidgetMessage::Bit25(flag)
            | BinaryFieldWidgetMessage::Bit26(flag)
            | BinaryFieldWidgetMessage::Bit27(flag)
            | BinaryFieldWidgetMessage::Bit28(flag)
            | BinaryFieldWidgetMessage::Bit29(flag)
            | BinaryFieldWidgetMessage::Bit30(flag)
            | BinaryFieldWidgetMessage::Bit31(flag) => *flag,
        }
    }

    /// The message that says bit `index` is to become `value`.
    pub fn from_bit(index: u8, value: bool) -> (message: BinaryFieldWidgetMessage)
        requires
            index < 32,
        ensures
            message.lane() == index,
            message.flag() == value,
    {
        match index {
            0 => BinaryFieldWidgetMessage::Bit0(value),
            1 => BinaryFieldWidgetMessage::Bit1(value),
            2 => BinaryFieldWidgetMessage::Bit2(value),
            3 => BinaryFieldWidgetMessage::Bit3(value),
            4 => BinaryFieldWidgetMessage::Bit4(value),
            5 => BinaryFieldWidgetMessage::Bit5(value),
            6 => BinaryFieldWidgetMessage::Bit6(value),
            7 => BinaryFieldWidgetMessage::Bit7(value),
            8 => BinaryFieldWidgetMessage::Bit8(value),
            9 => BinaryFieldWidgetMessage::Bit9(value),
            10 => BinaryFieldWidgetMessage::Bit10(value),
            11 => BinaryFieldWidgetMessage::Bit11(value),
            12 => BinaryFieldWidgetMessage::Bit12(value),
            13 => BinaryFieldWidgetMessage::Bit13(value),
            14 => BinaryFieldWidgetMessage::Bit14(value),
            15 => BinaryFieldWidgetMessage::Bit15(value),
            16 => BinaryFieldWidgetMessage::Bit16(value),
            17 => BinaryFieldWidgetMessage::Bit17(value),
            18 => BinaryFieldWidgetMessage::Bit18(value),
            19 => BinaryFieldWidgetMessage::Bit19(value),
            20 => BinaryFieldWidgetMessage::Bit20(value),
            21 => BinaryFieldWidgetMessage::Bit21(value),
            22 => BinaryFieldWidgetMessage::Bit22(value),
            23 => BinaryFieldWidgetMessage::Bit23(value),
            24 => BinaryFieldWidgetMessage::Bit24(value),
            25 => BinaryFieldWidgetMessage::Bit25(value),
            26 => BinaryFieldWidgetMessage::Bit26(value),
            27 => BinaryFieldWidgetMessage::Bit27(value),
            28 => BinaryFieldWidgetMessage::Bit28(value),
            29 => BinaryFieldWidgetMessage::Bit29(value),
            30 => BinaryFieldWidgetMessage::Bit30(value),
            _ => BinaryFieldWidgetMessage::Bit31(value),
        }
    }
}

/// Whether the checkbox of bit `index` carries its number above it: the first
/// and the last checkbox of each group of four do.
pub open spec fn is_labelled(index: u32) -> bool {
    index % 4 == 3 || index % 4 == 0
}

/// The unit in which the weight of bit `index` is given: none below 2^10,
/// then `K`, `M` and `G`.
pub open spec fn unit_text(index: u32) -> Seq<char> {
    if index < 10 {
        Seq::<char>::empty()
    } else if index < 20 {
        seq!['K']
    } else if index < 30 {
        seq!['M']
    } else {
        seq!['G']
    }
}

/// The weight of bit `index`, counted in its unit: a power of two from 1 to
/// 512.
pub open spec fn unit_count(index: u32) -> u32 {
    1u32 << (index % 10) as u32
}

/// The hint shown over the checkbox of bit `index`: the bit's number, then
/// its weight in square brackets, as in `29 [512M]`.
pub open spec fn tooltip_text(index: u32) -> Seq<char> {
    radix_text(index as nat, 10, 1) + seq![' ', '['] + radix_text(unit_count(index) as nat, 10, 1)
        + unit_text(index) + seq![']']
}

/// One checkbox of the bit field.
pub struct BitCell {
    /// The bit that the checkbox stands for.
    pub index: u8,
    /// Whether the checkbox is ticked.
    pub checked: bool,
    /// The number printed above the checkbox, where there is one.
    pub label: Option<String>,
    /// The hint shown while the pointer rests on the checkbox.
    pub tooltip: String,
}

impl BitCell {
    /// The cell is the checkbox of bit `index` of `value`.
    pub open spec fn shows(&self, value: u32, index: u32) -> bool {
        &&& self.index == index
        &&& self.checked == bit_at(value, index)
        &&& match self.label {
            Some(text) => is_labelled(index) && text@ == radix_text(index as nat, 10, 1),
            None => !is_labelled(index),
        }
        &&& self.tooltip@ == tooltip_text(index)
    }
}

/// What the bit field draws: eight groups of four checkboxes, the most
/// significant bit first.
pub struct BitFieldContent {
    /// The groups, from bits 31 to 28 down to bits 3 to 0.
    pub groups: Vec<Vec<BitCell>>,
    /// The spacing between the checkboxes of a group.
    pub spacing: u16,
    /// The spacing between the groups.
    pub group_spacing: u16,
    /// The size of the numbers above the checkboxes.
    pub text_size: u16,
    /// The height of the row.
    pub height: Length,
}

impl BitFieldContent {
    /// The bit that stands at place `cell` of group `group`.
    pub open spec fn bit_index(group: int, cell: int) -> u32 {
        (31 - (4 * group + cell)) as u32
    }

    /// The content is the picture of `value`: every checkbox stands at its
    /// place and shows its bit.
    pub open spec fn shows(&self, value: u32) -> bool {
        &&& self.groups@.len() == 8
        &&& forall|group: int|
            0 <= group < 8 ==> (#[trigger] self.groups@[group])@.len() == 4
        &&& forall|group: int, cell: int|
            0 <= group < 8 && 0 <= cell < 4 ==> (#[trigger] self.groups@[group]@[cell]).shows(
                value,
                Self::bit_index(group, cell),
            )
    }
}

/// The hint for the checkbox of bit `index`.
pub fn tooltip(index: u8) -> (text: String)
    requires
        index < 32,
    ensures
        text@ == tooltip_text(index as u32),
{
    let mut text = String::new();
    push_radix(&mut text, index as u32, 10, 1);
    proof {
        reveal_strlit(" [");
        reveal_strlit("K");
        reveal_strlit("M");
        reveal_strlit("G");
        reveal_strlit("]");
    }
    text.append(" [");
    let shift: u32 = (index % 10) as u32;
    push_radix(&mut text, 1u32 << shift, 10, 1);
    if index >= 30 {
        text.append("G");
    } else if index >= 20 {
        text.append("M");
    } else if index >= 10 {
        text.append("K");
    }
    text.append("]");
    assert(" ["@ =~= seq![' ', '[']);
    assert("K"@ =~= seq!['K']);
    assert("M"@ =~= seq!['M']);
    assert("G"@ =~= seq!['G']);
    assert("]"@ =~= seq![']']);
    assert(text@ =~= tooltip_text(index as u32));
    text
}

/// The checkbox of bit `index` of `value`.
pub fn create_cell(value: u32, index: u8) -> (cell: BitCell)
    requires
        index < 32,
    ensures
        cell.shows(value, index as u32),
{
    let label = if index % 4 == 3 || index % 4 == 0 {
        let mut text = String::new();
        push_radix(&mut text, index as u32, 10, 1);
        Some(text)
    } else {
        None
    };
    BitCell { index, checked: get_bit(value, index), label, tooltip: tooltip(index) }
}

/// `value` after the toggles in `messages`, applied in the order in which
/// they came.
pub open spec fn toggled(value: u32, messages: Seq<BinaryFieldWidgetMessage>) -> u32
    decreases messages.len(),
{
    if messages.len() == 0 {
        value
    } else {
        with_bit(
            toggled(value, messages.drop_last()),
            messages.last().lane(),
            messages.last().flag(),
        )
    }
}

/// The bit field: the value it shows and the measures it is drawn with.
#[derive(Debug, Clone, Copy, PartialEq, Eq, Structural)]
pub struct BinaryFieldWidget {
    /// The value whose bits the checkboxes show.
    pub value: u32,
    /// The width of the widget.
    pub width: Length,
    /// The height of the widget.
    pub height: Length,
    /// The maximum height of the widget.
    pub max_height: u32,
    /// The size of the numbers above the checkboxes.
    pub text_size: u16,
    /// The padding around the checkboxes.
    pub padding: u16,
    /// The spacing between the checkboxes of a group.
    pub spacing: u16,
    /// The spacing between the groups of checkboxes.
    pub group_spacing: u16,
}

impl BinaryFieldWidget {
    /// A bit field that shows `value`, with the default measures.
    pub fn new(value: u32) -> (widget: Self)
        ensures
            widget == (BinaryFieldWidget {
                value,
                width: Length::Fill,
                height: Length::Units(40),
                max_height: u32::MAX,
                text_size: DEFAULT_TEXT_SIZE,
                padding: DEFAULT_PADDING,
                spacing: DEFAULT_SPACING,
                group_spacing: DEFAULT_GROUP_SPACING,
            }),
    {
        BinaryFieldWidget {
            value,
            width: Length::Fill,
            height: Length::Units(40),
            max_height: u32::MAX,
            text_size: DEFAULT_TEXT_SIZE,
            padding: DEFAULT_PADDING,
            spacing: DEFAULT_SPACING,
            group_spacing: DEFAULT_GROUP_SPACING,
        }
    }

    /// Sets the width.
    #[must_use]
    pub fn width(self, width: Length) -> (widget: Self)
        ensures
            widget == (BinaryFieldWidget { width, ..self }),
    {
        BinaryFieldWidget { width, ..self }
    }

    /// Gets the width.
    #[must_use]
    pub fn get_width(&self) -> (width: Length)
        ensures
            width == self.width,
    {
        self.width
    }

    /// Sets the height.
    #[must_use]
    pub fn height(self, height: Length) -> (widget: Self)
        ensures
            widget == (BinaryFieldWidget { height, ..self }),
    {
        BinaryFieldWidget { height, ..self }
    }

    /// Gets the height.
    #[must_use]
    pub fn get_height(&self) -> (height: Length)
        ensures
            height == self.height,
    {
        self.height
    }

    /// Sets the maximum height.
    #[must_use]
    pub fn max_height(self, max_height: u32) -> (widget: Self)
        ensures
            widget == (BinaryFieldWidget { max_height, ..self }),
    {
        BinaryFieldWidget { max_height, ..self }
    }

    /// Sets the size of the numbers above the checkboxes.
    #[must_use]
    pub fn text_size(self, text_size: u16) -> (widget: Self)
        ensures
            widget == (BinaryFieldWidget { text_size, ..self }),
    {
        BinaryFieldWidget { text_size, ..self }
    }

    /// Sets the padding around the checkboxes.
    #[must_use]
    pub fn padding(self, padding: u16) -> (widget: Self)
        ensures
            widget == (BinaryFieldWidget { padding, ..self }),
    {
        BinaryFieldWidget { padding, ..self }
    }

    /// Sets the spacing between the checkboxes of a group.
    #[must_use]
    pub fn spacing(self, spacing: u16) -> (widget: Self)
        ensures
            widget == (BinaryFieldWidget { spacing, ..self }),
    {
        BinaryFieldWidget { spacing, ..self }
    }

    /// Sets the spacing between the groups of checkboxes.
    #[must_use]
    pub fn group_spacing(self, spacing: u16) -> (widget: Self)
        ensures
            widget == (BinaryFieldWidget { group_spacing: spacing, ..self }),
    {
        BinaryFieldWidget { group_spacing: spacing, ..self }
    }

    /// The content that shows `value` with the given measures.
    pub fn create_content(
        value: u32,
        spacing: u16,
        group_spacing: u16,
        text_size: u16,
        height: Length,
    ) -> (content: BitFieldContent)
        ensures
            content.shows(value),
            content.spacing == spacing,
            content.group_spacing == group_spacing,
            content.text_size == text_size,
            content.height == height,
    {
        let mut groups: Vec<Vec<BitCell>> = Vec::new();
        let mut group: u8 = 0;
        while group < 8
            invariant
                group <= 8,
                groups@.len() == group,
                forall|g: int| 0 <= g < group ==> (#[trigger] groups@[g])@.len() == 4,
                forall|g: int, c: int|
                    0 <= g < group && 0 <= c < 4 ==> (#[trigger] groups@[g]@[c]).shows(
                        value,
                        BitFieldContent::bit_index(g, c),
                    ),
            decreases 8 - group,
        {
            let mut cells: Vec<BitCell> = Vec::new();
            let mut cell: u8 = 0;
            while cell < 4
                invariant
                    group < 8,
                    cell <= 4,
                    cells@.len() == cell,
                    forall|c: int|
                        0 <= c < cell ==> (#[trigger] cells@[c]).shows(
                            value,
                            BitFieldContent::bit_index(group as int, c),
                        ),
                decreases 4 - cell,
            {
                let index: u8 = 31 - (4 * group + cell);
                cells.push(create_cell(value, index));
                cell += 1;
            }
            groups.push(cells);
            group += 1;
        }
        BitFieldContent { groups, spacing, group_spacing, text_size, height }
    }

    /// What the widget draws. It is made anew from the value on every call,
    /// so it cannot lag behind it.
    pub fn content(&self) -> (content: BitFieldContent)
        ensures
            content.shows(self.value),
            content.spacing == self.spacing,
            content.group_spacing == self.group_spacing,
            content.text_size == self.text_size,
            content.height == self.height,
    {
        Self::create_content(
            self.value,
            self.spacing,
            self.group_spacing,
            self.text_size,
            self.height,
        )
    }

    /// Takes the toggles that one event set off, in their order, and says
    /// what is to be announced: the new value where there was any toggle,
    /// nothing where there was none.
    pub fn on_event(&mut self, messages: &Vec<BinaryFieldWidgetMessage>) -> (changed: Option<u32>)
        ensures
            *final(self) == (BinaryFieldWidget {
                value: toggled(old(self).value, messages@),
                ..*old(self)
            }),
            changed == (if messages@.len() > 0 {
                Some(final(self).value)
            } else {
                None
            }),
    {
        let mut value = self.value;
        let mut done: usize = 0;
        while done < messages.len()
            invariant
                done <= messages@.len(),
                value == toggled(self.value, messages@.take(done as int)),
            decreases messages@.len() - done,
        {
            let message = messages[done];
            proof {
                let upto = messages@.take(done + 1);
                assert(upto.drop_last() =~= messages@.take(done as int));
                assert(upto.last() == message);
            }
            value = put_bit(value, &message.value(), message.index());
            done += 1;
        }
        assert(messages@.take(done as int) =~= messages@);
        self.value = value;
        if messages.len() > 0 {
            Some(value)
        } else {
            None
        }
    }
}

} // verus!
