//! Framing of read requests, write requests and replies.
use vstd::prelude::*;

use crate::crc::{crc8, crc8_atm, crc_closes, flip_bit, lemma_single_bit_flip_detected};
use crate::error::TMCError;
use crate::registers::TMC2209Register;

verus! {

/// The byte that starts every datagram on the line.
pub const SYNC_BYTE: u8 = 0x05;

/// The address a driver puts in byte 1 of each reply: the host's.
pub const MASTER_ADDRESS: u8 = 0xFF;

/// Added to a register's read address to form its write address.
pub const WRITE_OFFSET: u8 = 0x80;

/// The highest driver address that the two address pins can select.
pub const MAX_DRIVER_ADDRESS: u8 = 3;

/// `prefix` followed by its CRC.
pub open spec fn with_crc(prefix: Seq<u8>) -> Seq<u8> {
    prefix.push(crc8(prefix))
}

/// The four bytes asking driver `addr` for the register at `reg`.
pub open spec fn read_frame(addr: u8, reg: u8) -> Seq<u8> {
    with_crc(seq![SYNC_BYTE, addr, reg])
}

/// The eight bytes writing `payload` to the register at write address `waddr` of driver `addr`.
pub open spec fn write_frame(addr: u8, waddr: u8, payload: Seq<u8>) -> Seq<u8> {
    with_crc(seq![SYNC_BYTE, addr, waddr] + payload)
}

/// The eight bytes a driver sends back carrying `payload` from the register at `reg`.
pub open spec fn reply_frame(reg: u8, payload: Seq<u8>) -> Seq<u8> {
    with_crc(seq![SYNC_BYTE, MASTER_ADDRESS, reg] + payload)
}

/// What checking a received reply against the expected register gives:
/// the first failing check in order of priority, or the four payload bytes.
pub open spec fn check_reply(d: Seq<u8>, reg: u8) -> Result<Seq<u8>, TMCError> {
    if d.len() != 8 {
        Err(TMCError::DatagramLength(d.len() as usize))
    } else if d[7] != crc8(d.take(7)) {
        Err(TMCError::CrcMismatch)
    } else if d[0] != SYNC_BYTE {
        Err(TMCError::InvalidSyncByte(d[0]))
    } else if d[1] != MASTER_ADDRESS {
        Err(TMCError::InvalidMasterAddress(d[1]))
    } else if d[2] != reg {
        Err(TMCError::RegisterAddressMismatch(reg, d[2]))
    } else {
        Ok(d.subrange(3, 7))
    }
}

/// Builds the read request for register `reg` of driver `addr`.
pub fn encode_read_request(addr: u8, reg: u8) -> (r: Result<[u8; 4], TMCError>)
    ensures
        addr > MAX_DRIVER_ADDRESS ==> r == Err::<[u8; 4], TMCError>(
            TMCError::InvalidDriverAddress(addr),
        ),
        addr <= MAX_DRIVER_ADDRESS ==> r is Ok && r->Ok_0@ == read_frame(addr, reg),
{
    if addr > MAX_DRIVER_ADDRESS {
        return Err(TMCError::InvalidDriverAddress(addr));
    }
    let prefix: [u8; 3] = [SYNC_BYTE, addr, reg];
    let crc = crc8_atm(&prefix);
    let frame: [u8; 4] = [SYNC_BYTE, addr, reg, crc];
    assert(prefix@ =~= seq![SYNC_BYTE, addr, reg]);
    assert(frame@ =~= read_frame(addr, reg));
    Ok(frame)
}

/// Builds the write request carrying `payload` to write address `waddr` of driver `addr`.
pub fn encode_write_request(addr: u8, waddr: u8, payload: [u8; 4]) -> (r: Result<[u8; 8], TMCError>)
    ensures
        addr > MAX_DRIVER_ADDRESS ==> r == Err::<[u8; 8], TMCError>(
            TMCError::InvalidDriverAddress(addr),
        ),
        addr <= MAX_DRIVER_ADDRESS ==> r is Ok && r->Ok_0@ == write_frame(addr, waddr, payload@),
{
    if addr > MAX_DRIVER_ADDRESS {
        return Err(TMCError::InvalidDriverAddress(addr));
    }
    let prefix: [u8; 7] = [SYNC_BYTE, addr, waddr, payload[0], payload[1], payload[2], payload[3]];
    let crc = crc8_atm(&prefix);
    let frame: [u8; 8] = [
        SYNC_BYTE,
        addr,
        waddr,
        payload[0],
        payload[1],
        payload[2],
        payload[3],
        crc,
    ];
    assert(prefix@ =~= seq![SYNC_BYTE, addr, waddr] + payload@);
    assert(frame@ =~= write_frame(addr, waddr, payload@));
    Ok(frame)
}

/// Checks a received reply against the register `reg` it should carry and
/// returns its payload.
pub fn decode_reply(d: &[u8], reg: u8) -> (r: Result<[u8; 4], TMCError>)
    ensures
        match check_reply(d@, reg) {
            Ok(p) => r is Ok && r->Ok_0@ == p,
            Err(e) => r == Err::<[u8; 4], TMCError>(e),
        },
{
    if d.len() != 8 {
        return Err(TMCError::DatagramLength(d.len()));
    }
    let prefix: [u8; 7] = [d[0], d[1], d[2], d[3], d[4], d[5], d[6]];
    assert(prefix@ =~= d@.take(7));
    if d[7] != crc8_atm(&prefix) {
        return Err(TMCError::CrcMismatch);
    }
    if d[0] != SYNC_BYTE {
        return Err(TMCError::InvalidSyncByte(d[0]));
    }
    if d[1] != MASTER_ADDRESS {
        return Err(TMCError::InvalidMasterAddress(d[1]));
    }
    if d[2] != reg {
        return Err(TMCError::RegisterAddressMismatch(reg, d[2]));
    }
    let payload: [u8; 4] = [d[3], d[4], d[5], d[6]];
    assert(payload@ =~= d@.subrange(3, 7));
    Ok(payload)
}

/// A reply built from a register address and four payload bytes decodes,
/// against that register, to exactly those bytes.
pub proof fn lemma_reply_round_trip(reg: u8, payload: Seq<u8>)
    requires
        payload.len() == 4,
    ensures
        check_reply(reply_frame(reg, payload), reg) == Ok::<Seq<u8>, TMCError>(payload),
{
    let prefix = seq![SYNC_BYTE, MASTER_ADDRESS, reg] + payload;
    let d = reply_frame(reg, payload);
    assert(d.take(7) =~= prefix);
    assert(d.subrange(3, 7) =~= payload);
}

/// An eight-byte frame that passes the CRC check and then has any single
/// bit inverted is rejected with a CRC mismatch, whatever register is expected.
pub proof fn lemma_flipped_reply_rejected(frame: Seq<u8>, i: int, j: u8, reg: u8)
    requires
        frame.len() == 8,
        crc_closes(frame),
        0 <= i < 8,
        j < 8,
    ensures
        check_reply(flip_bit(frame, i, j), reg) == Err::<Seq<u8>, TMCError>(TMCError::CrcMismatch),
{
    lemma_single_bit_flip_detected(frame, i, j);
    let g = flip_bit(frame, i, j);
    assert(g.take(7) =~= g.drop_last());
}

/// A read request, held as the four bytes sent on the line.
pub struct TMC2209RequestDatagram {
    datagram: [u8; 4],
}

impl View for TMC2209RequestDatagram {
    type V = Seq<u8>;

    closed spec fn view(&self) -> Seq<u8> {
        self.datagram@
    }
}

impl TMC2209RequestDatagram {
    /// The request that reads `register` from driver `address`.
    pub fn new(address: u8, register: TMC2209Register) -> (r: Self)
        requires
            address <= MAX_DRIVER_ADDRESS,
        ensures
            r@ == read_frame(address, register.spec_read_value()),
    {
        let reg = register.read_value();
        let prefix: [u8; 3] = [SYNC_BYTE, address, reg];
        let crc = crc8_atm(&prefix);
        assert(prefix@ =~= seq![SYNC_BYTE, address, reg]);
        let r = Self { datagram: [SYNC_BYTE, address, reg, crc] };
        assert(r@ =~= read_frame(address, reg));
        r
    }

    /// The bytes to transmit.
    pub fn as_slice(&self) -> (r: &[u8])
        ensures
            r@ == self@,
    {
        self.datagram.as_slice()
    }

    /// The trailing CRC byte.
    pub fn crc(&self) -> (r: u8)
        ensures
            r == self@[3],
    {
        self.datagram[3]
    }
}

/// A register-carrying datagram: a write request built by the host, or a
/// reply received from a driver.
pub struct TMC2209RegisterDatagram {
    datagram: [u8; 8],
}

impl View for TMC2209RegisterDatagram {
    type V = Seq<u8>;

    closed spec fn view(&self) -> Seq<u8> {
        self.datagram@
    }
}

impl TMC2209RegisterDatagram {
    /// The request that writes `payload` to `register` of driver `address`.
    pub fn new(address: u8, register: TMC2209Register, payload: [u8; 4]) -> (r: Self)
        requires
            address <= MAX_DRIVER_ADDRESS,
        ensures
            r@ == write_frame(address, register.spec_write_value(), payload@),
    {
        let frame = encode_write_request(address, register.write_value(), payload);
        Self { datagram: frame.unwrap() }
    }

    /// Wraps eight bytes received from a driver.
    pub fn from_reply(datagram: [u8; 8]) -> (r: Self)
        ensures
            r@ == datagram@,
    {
        Self { datagram }
    }

    /// The datagram's bytes.
    pub fn as_slice(&self) -> (r: &[u8])
        ensures
            r@ == self@,
    {
        self.datagram.as_slice()
    }

    /// The trailing CRC byte.
    pub fn crc(&self) -> (r: u8)
        ensures
            r == self@[7],
    {
        self.datagram[7]
    }

    /// Succeeds exactly when the trailing byte is the CRC of the seven before it.
    pub fn is_valid(&self) -> (r: Result<(), TMCError>)
        ensures
            crc_closes(self@) ==> r is Ok,
            !crc_closes(self@) ==> r == Err::<(), TMCError>(TMCError::CrcMismatch),
    {
        let d = &self.datagram;
        let prefix: [u8; 7] = [d[0], d[1], d[2], d[3], d[4], d[5], d[6]];
        assert(prefix@ =~= self@.drop_last());
        if d[7] == crc8_atm(&prefix) {
            Ok(())
        } else {
            Err(TMCError::CrcMismatch)
        }
    }

    /// The four payload bytes.
    pub fn payload(&self) -> (r: [u8; 4])
        ensures
            r@ == self@.subrange(3, 7),
    {
        let r: [u8; 4] = [self.datagram[3], self.datagram[4], self.datagram[5], self.datagram[6]];
        assert(r@ =~= self@.subrange(3, 7));
        r
    }
}

} // verus!
