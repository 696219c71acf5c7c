//! Small pieces of the board's other peripherals: the EEPROM's device
//! select codes, the flash's status instructions and registers, and the
//! edges reported by the filament sensor and the bed probe.
use vstd::prelude::*;

verus! {

/// Whether bit `pos` of `b` is set.
pub open spec fn bit_of(b: u8, pos: u8) -> bool {
    (b >> pos) & 1u8 == 1u8
}

fn get_bit(b: u8, pos: u8) -> (r: bool)
    requires
        pos < 8,
    ensures
        r == bit_of(b, pos),
{
    (b >> pos) & 1 == 1
}

/// The errors of the ST25DV EEPROM.
#[derive(Debug, Clone, Copy, PartialEq, Eq, Structural)]
pub enum St25dvError {
    ReadError,
    WriteError,
    /// The buffer of a sequential write cannot hold the payload and the byte address.
    SequentialWritePayloadTooSmall,
}

/// The memory areas of the ST25DV EEPROM.
#[derive(Debug, Clone, Copy, PartialEq, Eq, Structural)]
pub enum Memory {
    User,
    System,
}

impl Memory {
    /// The 7-bit device select code that addresses this area on the I2C bus.
    pub fn device_select_code(&self) -> (r: u8)
        ensures
            r == (match *self {
                Memory::User => 0b0101_0011u8,
                Memory::System => 0b0101_0111u8,
            }),
    {
        match self {
            Memory::User => 0b0101_0011,
            Memory::System => 0b0101_0111,
        }
    }
}

/// The bytes of an EEPROM write starting at memory address `addr`: the
/// address, low byte first, then the data.
pub open spec fn eeprom_write_frame(addr: u16, data: Seq<u8>) -> Seq<u8> {
    seq![(addr & 0xff) as u8, (addr >> 8u16) as u8] + data
}

/// The I2C payload that writes one byte `data` at memory address `addr`.
pub fn byte_write_buffer(addr: u16, data: u8) -> (r: [u8; 3])
    ensures
        r@ == eeprom_write_frame(addr, seq![data]),
{
    let r: [u8; 3] = [(addr & 0xff) as u8, (addr >> 8u16) as u8, data];
    assert(r@ =~= eeprom_write_frame(addr, seq![data]));
    r
}

/// The I2C payload that writes `data` from memory address `addr` on, for a
/// transfer buffer of `capacity` bytes: it must hold the two address bytes
/// and the data. Only the bytes used are returned.
pub fn sequential_write_buffer(capacity: usize, addr: u16, data: &[u8]) -> (r: Result<
    Vec<u8>,
    St25dvError,
>)
    ensures
        capacity < data@.len() + 2 ==> r == Err::<Vec<u8>, St25dvError>(
            St25dvError::SequentialWritePayloadTooSmall,
        ),
        capacity >= data@.len() + 2 ==> r is Ok && r->Ok_0@ == eeprom_write_frame(addr, data@),
{
    if capacity < 2 || capacity - 2 < data.len() {
        return Err(St25dvError::SequentialWritePayloadTooSmall);
    }
    let mut v: Vec<u8> = Vec::new();
    v.push((addr & 0xff) as u8);
    v.push((addr >> 8u16) as u8);
    let mut i: usize = 0;
    while i < data.len()
        invariant
            i <= data@.len(),
            v@ == eeprom_write_frame(addr, data@.take(i as int)),
        decreases data@.len() - i,
    {
        v.push(data[i]);
        assert(data@.take((i + 1) as int) =~= data@.take(i as int).push(data@[i as int]));
        assert(eeprom_write_frame(addr, data@.take((i + 1) as int)) =~= eeprom_write_frame(
            addr,
            data@.take(i as int),
        ).push(data@[i as int]));
        i = i + 1;
    }
    assert(data@.take(data@.len() as int) =~= data@);
    Ok(v)
}

/// The W25Q64JV flash instructions that read a status register.
#[derive(Debug, Clone, Copy, PartialEq, Eq, Structural)]
pub enum Instruction {
    ReadStatusRegister1,
    ReadStatusRegister2,
    ReadStatusRegister3,
}

impl Instruction {
    /// The instruction's opcode.
    pub fn to_byte(&self) -> (r: u8)
        ensures
            r == (match *self {
                Instruction::ReadStatusRegister1 => 0x05u8,
                Instruction::ReadStatusRegister2 => 0x35u8,
                Instruction::ReadStatusRegister3 => 0x15u8,
            }),
    {
        match self {
            Instruction::ReadStatusRegister1 => 0x05,
            Instruction::ReadStatusRegister2 => 0x35,
            Instruction::ReadStatusRegister3 => 0x15,
        }
    }
}

/// Status register 1 of the W25Q64JV flash. Field `n` is bit `n` of the byte read.
#[derive(Debug, Clone, Copy, PartialEq, Eq, Structural)]
pub struct RegisterOne {
    pub busy: bool,
    pub write_enable: bool,
    pub block_protect_0: bool,
    pub block_protect_1: bool,
    pub block_protect_2: bool,
    pub top_bottom_protect: bool,
    pub sector_block_protect: bool,
    pub complement_protect: bool,
}

impl RegisterOne {
    /// Reads the register from the byte the flash returned.
    pub fn from_byte(b: u8) -> (r: Self)
        ensures
            r.busy == bit_of(b, 0),
            r.write_enable == bit_of(b, 1),
            r.block_protect_0 == bit_of(b, 2),
            r.block_protect_1 == bit_of(b, 3),
            r.block_protect_2 == bit_of(b, 4),
            r.top_bottom_protect == bit_of(b, 5),
            r.sector_block_protect == bit_of(b, 6),
            r.complement_protect == bit_of(b, 7),
    {
        RegisterOne {
            busy: get_bit(b, 0),
            write_enable: get_bit(b, 1),
            block_protect_0: get_bit(b, 2),
            block_protect_1: get_bit(b, 3),
            block_protect_2: get_bit(b, 4),
            top_bottom_protect: get_bit(b, 5),
            sector_block_protect: get_bit(b, 6),
            complement_protect: get_bit(b, 7),
        }
    }
}

/// Status register 2 of the W25Q64JV flash. Field `n` is bit `n` of the byte read.
#[derive(Debug, Clone, Copy, PartialEq, Eq, Structural)]
pub struct RegisterTwo {
    pub status_register_lock: bool,
    pub quad_enable: bool,
    pub reserved: bool,
    pub lock_bit_1: bool,
    pub lock_bit_2: bool,
    pub lock_bit_3: bool,
    pub complement_protect: bool,
    pub suspend_status: bool,
}

impl RegisterTwo {
    /// Reads the register from the byte the flash returned.
    pub fn from_byte(b: u8) -> (r: Self)
        ensures
            r.status_register_lock == bit_of(b, 0),
            r.quad_enable == bit_of(b, 1),
            r.reserved == bit_of(b, 2),
            r.lock_bit_1 == bit_of(b, 3),
            r.lock_bit_2 == bit_of(b, 4),
            r.lock_bit_3 == bit_of(b, 5),
            r.complement_protect == bit_of(b, 6),
            r.suspend_status == bit_of(b, 7),
    {
        RegisterTwo {
            status_register_lock: get_bit(b, 0),
            quad_enable: get_bit(b, 1),
            reserved: get_bit(b, 2),
            lock_bit_1: get_bit(b, 3),
            lock_bit_2: get_bit(b, 4),
            lock_bit_3: get_bit(b, 5),
            complement_protect: get_bit(b, 6),
            suspend_status: get_bit(b, 7),
        }
    }
}

/// Status register 3 of the W25Q64JV flash. Field `n` is bit `n` of the byte read.
#[derive(Debug, Clone, Copy, PartialEq, Eq, Structural)]
pub struct RegisterThree {
    pub reserved_0: bool,
    pub reserved_1: bool,
    pub write_protect_selection: bool,
    pub reserved_3: bool,
    pub reserved_4: bool,
    pub output_driver_strength_0: bool,
    pub output_driver_strength_1: bool,
    pub reserved_7: bool,
}

impl RegisterThree {
    /// Reads the register from the byte the flash returned.
    pub fn from_byte(b: u8) -> (r: Self)
        ensures
            r.reserved_0 == bit_of(b, 0),
            r.reserved_1 == bit_of(b, 1),
            r.write_protect_selection == bit_of(b, 2),
            r.reserved_3 == bit_of(b, 3),
            r.reserved_4 == bit_of(b, 4),
            r.output_driver_strength_0 == bit_of(b, 5),
            r.output_driver_strength_1 == bit_of(b, 6),
            r.reserved_7 == bit_of(b, 7),
    {
        RegisterThree {
            reserved_0: get_bit(b, 0),
            reserved_1: get_bit(b, 1),
            write_protect_selection: get_bit(b, 2),
            reserved_3: get_bit(b, 3),
            reserved_4: get_bit(b, 4),
            output_driver_strength_0: get_bit(b, 5),
            output_driver_strength_1: get_bit(b, 6),
            reserved_7: get_bit(b, 7),
        }
    }
}

/// A change reported by the filament sensor.
#[derive(Debug, Clone, Copy, PartialEq, Eq, Structural)]
pub enum FilamentChanged {
    Added,
    Removed,
}

impl FilamentChanged {
    /// The change an edge of the sensor input reports, from the level after it.
    pub fn from_level(high: bool) -> (r: Self)
        ensures
            r == (if high {
                FilamentChanged::Added
            } else {
                FilamentChanged::Removed
            }),
    {
        if high {
            FilamentChanged::Added
        } else {
            FilamentChanged::Removed
        }
    }
}

/// A change reported by the bed probe.
#[derive(Debug, Clone, Copy, PartialEq, Eq, Structural)]
pub enum PindaStateChange {
    Contact,
    NoContact,
}

impl PindaStateChange {
    /// The change an edge of the probe input reports, from the level after it.
    pub fn from_level(high: bool) -> (r: Self)
        ensures
            r == (if high {
                PindaStateChange::Contact
            } else {
                PindaStateChange::NoContact
            }),
    {
        if high {
            PindaStateChange::Contact
        } else {
            PindaStateChange::NoContact
        }
    }
}

} // verus!
