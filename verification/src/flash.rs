//! The external SPI NOR flash's byte-level protocol: command encoding,
//! status-register decoding, and the page arithmetic that splits a write
//! into page-sized transfers. The bus transfers themselves happen outside
//! this crate.

use vstd::prelude::*;

verus! {

/// A command sent to the flash chip.
#[derive(Debug, PartialEq, Eq)]
pub enum FlashCommand {
    WriteEnable,
    WriteDisable,
    Read(u32),
    Write(u32, Vec<u8>),
    ReadIdentification,
    ReadStatusRegister0,
    ReadStatusRegister1,
    ChipErase,
    ResetEnable,
    Reset,
    SectorErase(u32),
}

/// Mathematical model of a flash command.
#[verifier::ext_equal]
pub enum FlashCommandModel {
    WriteEnable,
    WriteDisable,
    Read(u32),
    Write(u32, Seq<u8>),
    ReadIdentification,
    ReadStatusRegister0,
    ReadStatusRegister1,
    ChipErase,
    ResetEnable,
    Reset,
    SectorErase(u32),
}

impl DeepView for FlashCommand {
    type V = FlashCommandModel;

    open spec fn deep_view(&self) -> FlashCommandModel {
        match self {
            FlashCommand::WriteEnable => FlashCommandModel::WriteEnable,
            FlashCommand::WriteDisable => FlashCommandModel::WriteDisable,
            FlashCommand::Read(a) => FlashCommandModel::Read(*a),
            FlashCommand::Write(a, v) => FlashCommandModel::Write(*a, v@),
            FlashCommand::ReadIdentification => FlashCommandModel::ReadIdentification,
            FlashCommand::ReadStatusRegister0 => FlashCommandModel::ReadStatusRegister0,
            FlashCommand::ReadStatusRegister1 => FlashCommandModel::ReadStatusRegister1,
            FlashCommand::ChipErase => FlashCommandModel::ChipErase,
            FlashCommand::ResetEnable => FlashCommandModel::ResetEnable,
            FlashCommand::Reset => FlashCommandModel::Reset,
            FlashCommand::SectorErase(a) => FlashCommandModel::SectorErase(*a),
        }
    }
}

/// A 24-bit address as its three wire bytes, most significant first.
pub open spec fn spec_address_bytes(a: u32) -> Seq<u8> {
    seq![(a / 0x10000 % 0x100) as u8, (a / 0x100 % 0x100) as u8, (a % 0x100) as u8]
}

/// The bytes a flash command ships as: the opcode, then for the addressed
/// commands the 24-bit address, then for a write its payload.
pub open spec fn spec_flash_command_bytes(c: FlashCommandModel) -> Seq<u8> {
    match c {
        FlashCommandModel::WriteEnable => seq![0x06u8],
        FlashCommandModel::WriteDisable => seq![0x04u8],
        FlashCommandModel::Read(a) => seq![0x03u8] + spec_address_bytes(a),
        FlashCommandModel::Write(a, v) => seq![0x02u8] + spec_address_bytes(a) + v,
        FlashCommandModel::ReadIdentification => seq![0x9fu8],
        FlashCommandModel::ReadStatusRegister0 => seq![0x05u8],
        FlashCommandModel::ReadStatusRegister1 => seq![0x35u8],
        FlashCommandModel::ChipErase => seq![0xc7u8],
        FlashCommandModel::ResetEnable => seq![0x66u8],
        FlashCommandModel::Reset => seq![0x99u8],
        FlashCommandModel::SectorErase(a) => seq![0x20u8] + spec_address_bytes(a),
    }
}

impl FlashCommand {
    /// The bytes this command ships as.
    pub fn to_bytes(&self) -> (r: Vec<u8>)
        ensures
            r@ == spec_flash_command_bytes(self.deep_view()),
    {
        let r = match self {
            FlashCommand::WriteEnable => vec![0x06u8],
            FlashCommand::WriteDisable => vec![0x04u8],
            FlashCommand::Read(a) => vec![
                0x03u8,
                (*a / 0x10000 % 0x100) as u8,
                (*a / 0x100 % 0x100) as u8,
                (*a % 0x100) as u8,
            ],
            FlashCommand::Write(a, v) => {
                let mut out = vec![
                    0x02u8,
                    (*a / 0x10000 % 0x100) as u8,
                    (*a / 0x100 % 0x100) as u8,
                    (*a % 0x100) as u8,
                ];
                let mut tail = vstd::slice::slice_to_vec(v.as_slice());
                out.append(&mut tail);
                out
            },
            FlashCommand::ReadIdentification => vec![0x9fu8],
            FlashCommand::ReadStatusRegister0 => vec![0x05u8],
            FlashCommand::ReadStatusRegister1 => vec![0x35u8],
            FlashCommand::ChipErase => vec![0xc7u8],
            FlashCommand::ResetEnable => vec![0x66u8],
            FlashCommand::Reset => vec![0x99u8],
            FlashCommand::SectorErase(a) => vec![
                0x20u8,
                (*a / 0x10000 % 0x100) as u8,
                (*a / 0x100 % 0x100) as u8,
                (*a % 0x100) as u8,
            ],
        };
        proof {
            assert(r@ =~= spec_flash_command_bytes(self.deep_view()));
        }
        r
    }
}

/// The chip's identification bytes.
#[derive(Debug, Clone, Copy, PartialEq, Eq, Structural)]
pub struct FlashIdentification {
    pub manufacturer: u8,
    pub memory_type: u8,
    pub capacity: u8,
}

impl FlashIdentification {
    /// The identification read back from the chip's three reply bytes.
    pub fn parse(buffer: &[u8]) -> (r: FlashIdentification)
        requires
            buffer@.len() >= 3,
        ensures
            r.manufacturer == buffer@[0],
            r.memory_type == buffer@[1],
            r.capacity == buffer@[2],
    {
        FlashIdentification { manufacturer: buffer[0], memory_type: buffer[1], capacity: buffer[2] }
    }
}

/// How the status register itself is protected against writes.
#[derive(Debug, Clone, Copy, PartialEq, Eq, Structural)]
pub enum FlashStatusRegisterProtection {
    SoftwareProtected,
    HardwareProtected,
    PowerSupplyLockDown,
    OneTimeProgram,
}

impl FlashStatusRegisterProtection {
    /// The protection mode encoded by a two-bit field.
    pub fn from_bits(value: u16) -> (r: FlashStatusRegisterProtection)
        requires
            value <= 0b11,
        ensures
            r == (if value == 0b00 {
                FlashStatusRegisterProtection::SoftwareProtected
            } else if value == 0b01 {
                FlashStatusRegisterProtection::HardwareProtected
            } else if value == 0b10 {
                FlashStatusRegisterProtection::PowerSupplyLockDown
            } else {
                FlashStatusRegisterProtection::OneTimeProgram
            }),
    {
        if value == 0b00 {
            FlashStatusRegisterProtection::SoftwareProtected
        } else if value == 0b01 {
            FlashStatusRegisterProtection::HardwareProtected
        } else if value == 0b10 {
            FlashStatusRegisterProtection::PowerSupplyLockDown
        } else {
            FlashStatusRegisterProtection::OneTimeProgram
        }
    }
}

/// The two status registers, decoded.
#[derive(Debug, Clone, Copy, PartialEq, Eq, Structural)]
pub struct FlashStatusRegisters {
    pub write_in_progress: bool,
    pub write_enable: bool,
    pub block_protect_bits: u8,
    pub status_register_protect: FlashStatusRegisterProtection,
    pub quad_enabled: bool,
    pub one_time_program: bool,
    pub cmp: bool,
}

impl FlashStatusRegisters {
    /// The registers decoded from their combined 16-bit value (register
    /// one in the high byte, register zero in the low byte).
    pub fn parse(value: u16) -> (r: FlashStatusRegisters)
        ensures
            r.write_in_progress == (value % 2 == 1),
            r.write_enable == (value / 2 % 2 == 1),
            r.block_protect_bits == (value / 4 % 32) as u8,
            r.status_register_protect == (if value / 128 % 4 == 0 {
                FlashStatusRegisterProtection::SoftwareProtected
            } else if value / 128 % 4 == 1 {
                FlashStatusRegisterProtection::HardwareProtected
            } else if value / 128 % 4 == 2 {
                FlashStatusRegisterProtection::PowerSupplyLockDown
            } else {
                FlashStatusRegisterProtection::OneTimeProgram
            }),
            r.quad_enabled == (value / 512 % 2 == 1),
            r.one_time_program == (value / 1024 % 2 == 1),
            r.cmp == (value / 16384 % 2 == 1),
    {
        FlashStatusRegisters {
            write_in_progress: value % 2 == 1,
            write_enable: value / 2 % 2 == 1,
            block_protect_bits: (value / 4 % 32) as u8,
            status_register_protect: FlashStatusRegisterProtection::from_bits(value / 128 % 4),
            quad_enabled: value / 512 % 2 == 1,
            one_time_program: value / 1024 % 2 == 1,
            cmp: value / 16384 % 2 == 1,
        }
    }
}

/// A write split at page boundaries: each chunk starts where the previous
/// one ended, and none crosses the 256-byte page its address lies in.
pub open spec fn spec_page_chunks(start: u32, data: Seq<u8>) -> Seq<(u32, Seq<u8>)>
    recommends
        start + data.len() <= 0x1000000,
    decreases data.len(),
{
    let room = 256 - (start as int % 256);
    if data.len() <= room {
        seq![(start, data)]
    } else {
        seq![(start, data.take(room))] + spec_page_chunks(
            (start + room) as u32,
            data.skip(room),
        )
    }
}

/// Splits a write into page-sized transfers: the first chunk fills the
/// rest of the page `start` lies in, every further chunk covers one whole
/// page, and the last takes what remains.
pub fn write_chunks(start: u32, data: &[u8]) -> (r: Vec<(u32, Vec<u8>)>)
    requires
        start + data@.len() <= 0x1000000,
    ensures
        r.deep_view() == spec_page_chunks(start, data@),
{
    let mut remaining = vstd::slice::slice_to_vec(data);
    let mut r: Vec<(u32, Vec<u8>)> = Vec::new();
    let mut at: u32 = start;

    proof {
        assert(r.deep_view() =~= Seq::<(u32, Seq<u8>)>::empty());
        assert(r.deep_view() + spec_page_chunks(at, remaining@) =~= spec_page_chunks(
            start,
            data@,
        ));
    }

    loop
        invariant
            at + remaining@.len() <= 0x1000000,
            r.deep_view() + spec_page_chunks(at, remaining@) == spec_page_chunks(start, data@),
        decreases remaining@.len(),
    {
        let room: usize = 256 - ((at as usize) % 256);
        if remaining.len() <= room {
            let ghost prev = r.deep_view();
            let ghost rem = remaining@;
            r.push((at, remaining));
            proof {
                assert(r.deep_view() =~~= prev + seq![(at, rem)]);
                assert(prev + seq![(at, rem)] =~~= prev + spec_page_chunks(at, rem));
            }
            return r;
        }
        let tail = remaining.split_off(room);
        let ghost head = remaining@;
        let ghost before = remaining@ + tail@;
        let ghost prev = r.deep_view();
        let chunk_at = at;
        at = at + (room as u32);
        r.push((chunk_at, remaining));
        remaining = tail;
        proof {
            assert(before.take(room as int) =~= head);
            assert(before.skip(room as int) =~= remaining@);
            assert(r.deep_view() =~~= prev + seq![(chunk_at, head)]);
            assert(r.deep_view() + spec_page_chunks(at, remaining@) =~~= prev + spec_page_chunks(
                chunk_at,
                before,
            ));
        }
    }
}

/// The pattern the flash self test writes and reads back for a given
/// transfer size: each byte is its index plus the size, truncated.
pub fn self_test_pattern(byte_amount: usize) -> (r: Vec<u8>)
    ensures
        r@.len() == byte_amount,
        forall|i: int|
            0 <= i < byte_amount ==> r@[i] == ((i + byte_amount) % 256) as u8,
{
    let mut r: Vec<u8> = Vec::new();
    let mut i: usize = 0;
    while i < byte_amount
        invariant
            i <= byte_amount,
            r@.len() == i,
            forall|j: int| 0 <= j < i ==> r@[j] == ((j + byte_amount) % 256) as u8,
        decreases byte_amount - i,
    {
        r.push(((i % 256 + byte_amount % 256) % 256) as u8);
        proof {
            assert((i % 256 + byte_amount % 256) % 256 == (i + byte_amount) % 256) by (nonlinear_arith);
        }
        i = i + 1;
    }
    r
}

} // verus!
