//! The display controller's command codec: each high-level command becomes
//! the exact sequence of command/data bytes shipped over the serial bus,
//! and each pixel format has its byte packing.

use vstd::prelude::*;

verus! {

/// One byte on the serial bus, tagged with the level of the command/data
/// pin it must be sent under.
#[derive(Debug, Clone, Copy, PartialEq, Eq, Structural)]
pub enum TransmissionByte {
    Data(u8),
    Command(u8),
}

/// The RGB interface color formats the controller supports.
#[derive(Debug, Clone, Copy, PartialEq, Eq, Structural)]
pub enum RGBPixelFormat {
    Format4K,
    Format65K,
    Format262K,
}

impl RGBPixelFormat {
    pub open spec fn spec_value(self) -> u8 {
        match self {
            RGBPixelFormat::Format4K => 0b011,
            RGBPixelFormat::Format65K => 0b101,
            RGBPixelFormat::Format262K => 0b110,
        }
    }

    pub fn value(&self) -> (r: u8)
        ensures
            r == self.spec_value(),
    {
        match self {
            RGBPixelFormat::Format4K => 0b011,
            RGBPixelFormat::Format65K => 0b101,
            RGBPixelFormat::Format262K => 0b110,
        }
    }
}

/// The control interface color formats the controller supports.
#[derive(Debug, Clone, Copy, PartialEq, Eq, Structural)]
pub enum ControlPixelFormat {
    Format12bpp,
    Format16bpp,
    Format18bpp,
    Format16MTruncated,
}

impl ControlPixelFormat {
    pub open spec fn spec_value(self) -> u8 {
        match self {
            ControlPixelFormat::Format12bpp => 0b011,
            ControlPixelFormat::Format16bpp => 0b101,
            ControlPixelFormat::Format18bpp => 0b110,
            ControlPixelFormat::Format16MTruncated => 0b111,
        }
    }

    pub fn value(&self) -> (r: u8)
        ensures
            r == self.spec_value(),
    {
        match self {
            ControlPixelFormat::Format12bpp => 0b011,
            ControlPixelFormat::Format16bpp => 0b101,
            ControlPixelFormat::Format18bpp => 0b110,
            ControlPixelFormat::Format16MTruncated => 0b111,
        }
    }
}

/// A command understood by the display controller.
#[derive(Debug, PartialEq, Eq)]
pub enum DisplayCommand {
    SleepIn,
    SleepOut,
    InvertOff,
    InvertOn,
    DisplayOn,
    DisplayOff,
    ColumnAddressSet(u16, u16),
    RowAddressSet(u16, u16),
    StartRamWrite,
    RamWrite(Vec<u8>),
    SoftwareReset,
    MemoryDataAccessControl(u8),
    InterfacePixelFormat(RGBPixelFormat, ControlPixelFormat),
    NormalModeOn,
    WriteBrightness(u8),
}

/// Mathematical model of a display command.
#[verifier::ext_equal]
pub enum DisplayCommandModel {
    SleepIn,
    SleepOut,
    InvertOff,
    InvertOn,
    DisplayOn,
    DisplayOff,
    ColumnAddressSet(u16, u16),
    RowAddressSet(u16, u16),
    StartRamWrite,
    RamWrite(Seq<u8>),
    SoftwareReset,
    MemoryDataAccessControl(u8),
    InterfacePixelFormat(RGBPixelFormat, ControlPixelFormat),
    NormalModeOn,
    WriteBrightness(u8),
}

impl DeepView for DisplayCommand {
    type V = DisplayCommandModel;

    open spec fn deep_view(&self) -> DisplayCommandModel {
        match self {
            DisplayCommand::SleepIn => DisplayCommandModel::SleepIn,
            DisplayCommand::SleepOut => DisplayCommandModel::SleepOut,
            DisplayCommand::InvertOff => DisplayCommandModel::InvertOff,
            DisplayCommand::InvertOn => DisplayCommandModel::InvertOn,
            DisplayCommand::DisplayOn => DisplayCommandModel::DisplayOn,
            DisplayCommand::DisplayOff => DisplayCommandModel::DisplayOff,
            DisplayCommand::ColumnAddressSet(s, e) => DisplayCommandModel::ColumnAddressSet(
                *s,
                *e,
            ),
            DisplayCommand::RowAddressSet(s, e) => DisplayCommandModel::RowAddressSet(*s, *e),
            DisplayCommand::StartRamWrite => DisplayCommandModel::StartRamWrite,
            DisplayCommand::RamWrite(v) => DisplayCommandModel::RamWrite(v@),
            DisplayCommand::SoftwareReset => DisplayCommandModel::SoftwareReset,
            DisplayCommand::MemoryDataAccessControl(c) => {
                DisplayCommandModel::MemoryDataAccessControl(*c)
            },
            DisplayCommand::InterfacePixelFormat(r, c) => {
                DisplayCommandModel::InterfacePixelFormat(*r, *c)
            },
            DisplayCommand::NormalModeOn => DisplayCommandModel::NormalModeOn,
            DisplayCommand::WriteBrightness(b) => DisplayCommandModel::WriteBrightness(*b),
        }
    }
}

/// The bytes a command ships as: the controller's opcode, then the
/// command's parameters as data bytes (16-bit addresses big-endian). A RAM
/// write is the write opcode followed by the pixel payload.
pub open spec fn spec_command_bytes(c: DisplayCommandModel) -> Seq<TransmissionByte> {
    match c {
        DisplayCommandModel::SleepIn => seq![TransmissionByte::Command(0x10)],
        DisplayCommandModel::SleepOut => seq![TransmissionByte::Command(0x11)],
        DisplayCommandModel::InvertOff => seq![TransmissionByte::Command(0x20)],
        DisplayCommandModel::InvertOn => seq![TransmissionByte::Command(0x21)],
        DisplayCommandModel::DisplayOff => seq![TransmissionByte::Command(0x28)],
        DisplayCommandModel::DisplayOn => seq![TransmissionByte::Command(0x29)],
        DisplayCommandModel::ColumnAddressSet(s, e) => seq![
            TransmissionByte::Command(0x2a),
            TransmissionByte::Data((s / 256) as u8),
            TransmissionByte::Data((s % 256) as u8),
            TransmissionByte::Data((e / 256) as u8),
            TransmissionByte::Data((e % 256) as u8),
        ],
        DisplayCommandModel::RowAddressSet(s, e) => seq![
            TransmissionByte::Command(0x2b),
            TransmissionByte::Data((s / 256) as u8),
            TransmissionByte::Data((s % 256) as u8),
            TransmissionByte::Data((e / 256) as u8),
            TransmissionByte::Data((e % 256) as u8),
        ],
        DisplayCommandModel::StartRamWrite => seq![TransmissionByte::Command(0x2c)],
        DisplayCommandModel::RamWrite(v) => seq![TransmissionByte::Command(0x2c)] + v.map_values(
            |x: u8| TransmissionByte::Data(x),
        ),
        DisplayCommandModel::SoftwareReset => seq![TransmissionByte::Command(0x01)],
        DisplayCommandModel::MemoryDataAccessControl(c) => seq![
            TransmissionByte::Command(0x36),
            TransmissionByte::Data(c),
        ],
        DisplayCommandModel::InterfacePixelFormat(r, c) => seq![
            TransmissionByte::Command(0x3a),
            TransmissionByte::Data((r.spec_value() << 4) | c.spec_value()),
        ],
        DisplayCommandModel::NormalModeOn => seq![TransmissionByte::Command(0x13)],
        DisplayCommandModel::WriteBrightness(b) => seq![
            TransmissionByte::Command(0x51),
            TransmissionByte::Data(b),
        ],
    }
}

impl DisplayCommand {
    /// The command/data byte sequence this command ships as.
    pub fn to_transmission_bytes(&self) -> (r: Vec<TransmissionByte>)
        ensures
            r@ == spec_command_bytes(self.deep_view()),
    {
        let r = match self {
            DisplayCommand::SleepIn => vec![TransmissionByte::Command(0x10)],
            DisplayCommand::SleepOut => vec![TransmissionByte::Command(0x11)],
            DisplayCommand::InvertOff => vec![TransmissionByte::Command(0x20)],
            DisplayCommand::InvertOn => vec![TransmissionByte::Command(0x21)],
            DisplayCommand::DisplayOff => vec![TransmissionByte::Command(0x28)],
            DisplayCommand::DisplayOn => vec![TransmissionByte::Command(0x29)],
            DisplayCommand::ColumnAddressSet(s, e) => vec![
                TransmissionByte::Command(0x2a),
                TransmissionByte::Data((*s / 256) as u8),
                TransmissionByte::Data((*s % 256) as u8),
                TransmissionByte::Data((*e / 256) as u8),
                TransmissionByte::Data((*e % 256) as u8),
            ],
            DisplayCommand::RowAddressSet(s, e) => vec![
                TransmissionByte::Command(0x2b),
                TransmissionByte::Data((*s / 256) as u8),
                TransmissionByte::Data((*s % 256) as u8),
                TransmissionByte::Data((*e / 256) as u8),
                TransmissionByte::Data((*e % 256) as u8),
            ],
            DisplayCommand::StartRamWrite => vec![TransmissionByte::Command(0x2c)],
            DisplayCommand::RamWrite(v) => {
                let mut out = vec![TransmissionByte::Command(0x2c)];
                let count = v.len();
                let mut i: usize = 0;
                while i < count
                    invariant
                        i <= count,
                        count == v@.len(),
                        out@ =~= seq![TransmissionByte::Command(0x2cu8)] + v@.take(
                            i as int,
                        ).map_values(|x: u8| TransmissionByte::Data(x)),
                    decreases count - i,
                {
                    out.push(TransmissionByte::Data(v[i]));
                    proof {
                        assert(v@.take(i as int + 1).map_values(
                            |x: u8| TransmissionByte::Data(x),
                        ) =~= v@.take(i as int).map_values(|x: u8| TransmissionByte::Data(x)).push(
                            TransmissionByte::Data(v@[i as int]),
                        ));
                    }
                    i = i + 1;
                }
                proof {
                    assert(v@.take(count as int) =~= v@);
                }
                out
            },
            DisplayCommand::SoftwareReset => vec![TransmissionByte::Command(0x01)],
            DisplayCommand::MemoryDataAccessControl(c) => vec![
                TransmissionByte::Command(0x36),
                TransmissionByte::Data(*c),
            ],
            DisplayCommand::InterfacePixelFormat(rf, cf) => vec![
                TransmissionByte::Command(0x3a),
                TransmissionByte::Data((rf.value() << 4) | cf.value()),
            ],
            DisplayCommand::NormalModeOn => vec![TransmissionByte::Command(0x13)],
            DisplayCommand::WriteBrightness(b) => vec![
                TransmissionByte::Command(0x51),
                TransmissionByte::Data(*b),
            ],
        };
        proof {
            assert(r@ =~= spec_command_bytes(self.deep_view()));
        }
        r
    }
}

/// The three backlight pin levels for a three-bit brightness value: each
/// set bit pulls its pin low (the pins are active-low).
pub fn backlight_pin_levels(value: u8) -> (r: (bool, bool, bool))
    ensures
        r.0 == ((value & 0b001) == 0),
        r.1 == ((value & 0b010) == 0),
        r.2 == ((value & 0b100) == 0),
{
    ((value & 0b001) == 0, (value & 0b010) == 0, (value & 0b100) == 0)
}

/// The two bus bytes of a 16-bit 5-6-5 pixel, from its color channels as
/// the graphics layer hands them over (red and blue 5 bits, green 6 bits).
pub fn rgb565_data_bytes(red: u8, green: u8, blue: u8) -> (r: (u8, u8))
    ensures
        r.0 == ((red << 3) | ((green >> 3) & 0b111)),
        r.1 == ((green << 5) | (blue & 0b11111)),
{
    ((red << 3) | ((green >> 3) & 0b111), (green << 5) | (blue & 0b11111))
}

/// The three bus bytes of an 18-bit 6-6-6 pixel: each 6-bit channel is
/// left-aligned in its byte.
pub fn rgb666_data_bytes(red: u8, green: u8, blue: u8) -> (r: (u8, u8, u8))
    ensures
        r.0 == red << 2,
        r.1 == green << 2,
        r.2 == blue << 2,
{
    (red << 2, green << 2, blue << 2)
}

/// The grayscale byte of a 2-bit luma value, spread over the byte's range;
/// any other luma value means a corrupted pixel and is ruled out.
pub fn gray2_data_byte(luma: u8) -> (r: u8)
    requires
        luma <= 0b11,
    ensures
        r == (if luma == 0 {
            0x00u8
        } else if luma == 1 {
            0x0fu8
        } else if luma == 2 {
            0xf0u8
        } else {
            0xffu8
        }),
{
    if luma == 0 {
        0x00
    } else if luma == 1 {
        0x0f
    } else if luma == 2 {
        0xf0
    } else {
        0xff
    }
}

} // verus!
