//! The TMC2209 register catalog: read addresses and the bit layout of each
//! register's four-byte payload.
//!
//! A payload is read as one big-endian 32-bit word; bit `n` of a register
//! is bit `n` of that word.
use vstd::prelude::*;

use crate::datagram::{
    check_reply, decode_reply, encode_read_request, encode_write_request, read_frame, write_frame,
    MAX_DRIVER_ADDRESS, WRITE_OFFSET,
};
use crate::error::TMCError;

verus! {

/// The 32-bit word that four payload bytes spell, most significant byte first.
pub open spec fn word_of(p: Seq<u8>) -> u32 {
    ((p[0] as u32) << 24u32) | ((p[1] as u32) << 16u32) | ((p[2] as u32) << 8u32) | (p[3] as u32)
}

/// The payload bytes of a word, most significant byte first.
pub open spec fn bytes_of(w: u32) -> Seq<u8> {
    seq![(w >> 24u32) as u8, (w >> 16u32) as u8, (w >> 8u32) as u8, w as u8]
}

/// The word with only bit `pos` set when `b` holds.
pub open spec fn flag_bits(b: bool, pos: u32) -> u32 {
    if b {
        1u32 << pos
    } else {
        0u32
    }
}

/// `v` cut to the bits of `mask` and moved up to bit `pos`.
pub open spec fn field_bits(v: u32, mask: u32, pos: u32) -> u32 {
    (v & mask) << pos
}

/// Whether bit `pos` of `w` is set.
pub open spec fn flag_at(w: u32, pos: u32) -> bool {
    (w >> pos) & 1u32 == 1u32
}

/// The bits of `w` from `pos` upward, cut to `mask`.
pub open spec fn field_at(w: u32, mask: u32, pos: u32) -> u32 {
    (w >> pos) & mask
}

/// Reads four payload bytes as a big-endian word.
pub fn word_from_payload(p: [u8; 4]) -> (w: u32)
    ensures
        w == word_of(p@),
{
    ((p[0] as u32) << 24u32) | ((p[1] as u32) << 16u32) | ((p[2] as u32) << 8u32) | (p[3] as u32)
}

/// Writes a word as four payload bytes, most significant first.
pub fn payload_from_word(w: u32) -> (p: [u8; 4])
    ensures
        p@ == bytes_of(w),
        word_of(p@) == w,
{
    let p: [u8; 4] = [(w >> 24u32) as u8, (w >> 16u32) as u8, (w >> 8u32) as u8, w as u8];
    assert(p@ =~= bytes_of(w));
    assert((((w >> 24u32) as u8 as u32) << 24u32) | (((w >> 16u32) as u8 as u32) << 16u32) | (((w
        >> 8u32) as u8 as u32) << 8u32) | (w as u8 as u32) == w) by (bit_vector);
    p
}

fn flag(b: bool, pos: u32) -> (r: u32)
    requires
        pos < 32,
    ensures
        r == flag_bits(b, pos),
{
    if b {
        1u32 << pos
    } else {
        0
    }
}

fn field(v: u32, mask: u32, pos: u32) -> (r: u32)
    requires
        pos < 32,
    ensures
        r == field_bits(v, mask, pos),
{
    (v & mask) << pos
}

fn get_flag(w: u32, pos: u32) -> (r: bool)
    requires
        pos < 32,
    ensures
        r == flag_at(w, pos),
{
    (w >> pos) & 1 == 1
}

fn get_field(w: u32, mask: u32, pos: u32) -> (r: u32)
    requires
        pos < 32,
    ensures
        r == field_at(w, mask, pos),
{
    (w >> pos) & mask
}

/// A register of the catalog: its read address and how its value maps to
/// and from a payload word. Requests and replies for it are built and
/// checked from these.
pub trait Datagram: Sized {
    /// The register's read address.
    spec fn spec_read_addr() -> u8;

    /// The payload word this value is written as.
    spec fn spec_word(&self) -> u32;

    /// The value a payload word is read as.
    spec fn spec_from_word(w: u32) -> Self;

    /// Whether every field of this value fits the bits its layout gives it.
    spec fn spec_fits(&self) -> bool;

    /// A value whose fields fit is read back unchanged from the payload
    /// word it is written as.
    proof fn lemma_word_round_trip(&self)
        requires
            self.spec_fits(),
        ensures
            Self::spec_from_word(self.spec_word()) == *self,
    ;

    /// Returns the address of the read register.
    fn read_reg_addr() -> (r: u8)
        ensures
            r == Self::spec_read_addr(),
            r < WRITE_OFFSET,
    ;

    /// Packs this value into its payload word.
    fn to_word(&self) -> (w: u32)
        ensures
            w == self.spec_word(),
    ;

    /// Reads a value out of a payload word.
    fn from_word(w: u32) -> (r: Self)
        ensures
            r == Self::spec_from_word(w),
    ;

    /// Returns the address of the write register: the read address plus `0x80`.
    fn write_reg_addr() -> (r: u8)
        ensures
            r == Self::spec_read_addr() + WRITE_OFFSET,
    {
        Self::read_reg_addr() + WRITE_OFFSET
    }

    /// Builds the request that reads this register from driver `addr`.
    fn read_request(&self, addr: u8) -> (r: Result<[u8; 4], TMCError>)
        ensures
            addr > MAX_DRIVER_ADDRESS ==> r == Err::<[u8; 4], TMCError>(
                TMCError::InvalidDriverAddress(addr),
            ),
            addr <= MAX_DRIVER_ADDRESS ==> r is Ok && r->Ok_0@ == read_frame(
                addr,
                Self::spec_read_addr(),
            ),
    {
        encode_read_request(addr, Self::read_reg_addr())
    }

    /// Builds the request that writes this value to driver `uart_addr`.
    fn as_write_request(&self, uart_addr: u8) -> (r: Result<[u8; 8], TMCError>)
        ensures
            uart_addr > MAX_DRIVER_ADDRESS ==> r == Err::<[u8; 8], TMCError>(
                TMCError::InvalidDriverAddress(uart_addr),
            ),
            uart_addr <= MAX_DRIVER_ADDRESS ==> r is Ok && r->Ok_0@ == write_frame(
                uart_addr,
                (Self::spec_read_addr() + WRITE_OFFSET) as u8,
                bytes_of(self.spec_word()),
            ),
    {
        let payload = payload_from_word(self.to_word());
        encode_write_request(uart_addr, Self::write_reg_addr(), payload)
    }

    /// Checks a reply received for this register and reads the value it carries.
    fn from_datagram(datagram: &[u8]) -> (r: Result<Self, TMCError>)
        ensures
            match check_reply(datagram@, Self::spec_read_addr()) {
                Ok(p) => r == Ok::<Self, TMCError>(Self::spec_from_word(word_of(p))),
                Err(e) => r == Err::<Self, TMCError>(e),
            },
    {
        match decode_reply(datagram, Self::read_reg_addr()) {
            Ok(p) => Ok(Self::from_word(word_from_payload(p))),
            Err(e) => Err(e),
        }
    }

    /// Replaces this value by the one a received reply carries; on a failed
    /// check the value is left as it was.
    fn update(&mut self, datagram: &[u8]) -> (r: Result<(), TMCError>)
        ensures
            match check_reply(datagram@, Self::spec_read_addr()) {
                Ok(p) => r is Ok && *final(self) == Self::spec_from_word(word_of(p)),
                Err(e) => r == Err::<(), TMCError>(e) && *final(self) == *old(self),
            },
    {
        match Self::from_datagram(datagram) {
            Ok(v) => {
                *self = v;
                Ok(())
            },
            Err(e) => Err(e),
        }
    }
}

/// IFCNT: the interface transmission counter, incremented by the driver on
/// every write it accepts.
#[derive(Debug, Clone, Copy, Default, PartialEq, Eq, Structural)]
pub struct IfCnt {
    pub cnt: u8,
}

impl Datagram for IfCnt {
    open spec fn spec_read_addr() -> u8 {
        0x02
    }

    open spec fn spec_word(&self) -> u32 {
        self.cnt as u32
    }

    open spec fn spec_from_word(w: u32) -> Self {
        IfCnt { cnt: w as u8 }
    }

    fn read_reg_addr() -> (r: u8) {
        0x02
    }

    fn to_word(&self) -> (w: u32) {
        self.cnt as u32
    }

    fn from_word(w: u32) -> (r: Self) {
        IfCnt { cnt: w as u8 }
    }

    open spec fn spec_fits(&self) -> bool {
        true
    }

    proof fn lemma_word_round_trip(&self) {
        let w = self.spec_word();
        let x0 = self.cnt;
        assert((w as u8) == x0) by (bit_vector)
            requires
                w == x0 as u32,
        ;
    }
}

/// IOIN: the levels of the driver's input pins and its silicon version.
#[derive(Debug, Clone, Copy, Default, PartialEq, Eq, Structural)]
pub struct Ioin {
    /// Enable-not input: the power stage is off while it is high.
    pub enn: bool,
    /// Reserved; reads as zero.
    pub zero1: u8,
    pub ms1: bool,
    pub ms2: bool,
    pub diag: bool,
    /// Reserved; reads as zero.
    pub zero2: u8,
    pub pdn_uart: bool,
    pub step: bool,
    pub spread_en: bool,
    pub dir: bool,
    pub version: u8,
}

impl Datagram for Ioin {
    open spec fn spec_read_addr() -> u8 {
        0x06
    }

    open spec fn spec_word(&self) -> u32 {
        flag_bits(self.enn, 0)
        | field_bits(self.zero1 as u32, 0x1, 1)
        | flag_bits(self.ms1, 2)
        | flag_bits(self.ms2, 3)
        | flag_bits(self.diag, 4)
        | field_bits(self.zero2 as u32, 0x1, 5)
        | flag_bits(self.pdn_uart, 6)
        | flag_bits(self.step, 7)
        | flag_bits(self.spread_en, 8)
        | flag_bits(self.dir, 9)
        | field_bits(self.version as u32, 0xff, 24)
    }

    open spec fn spec_from_word(w: u32) -> Self {
        Ioin {
            enn: flag_at(w, 0),
            zero1: field_at(w, 0x1, 1) as u8,
            ms1: flag_at(w, 2),
            ms2: flag_at(w, 3),
            diag: flag_at(w, 4),
            zero2: field_at(w, 0x1, 5) as u8,
            pdn_uart: flag_at(w, 6),
            step: flag_at(w, 7),
            spread_en: flag_at(w, 8),
            dir: flag_at(w, 9),
            version: field_at(w, 0xff, 24) as u8,
        }
    }

    fn read_reg_addr() -> (r: u8) {
        0x06
    }

    fn to_word(&self) -> (w: u32) {
        flag(self.enn, 0)
        | field(self.zero1 as u32, 0x1, 1)
        | flag(self.ms1, 2)
        | flag(self.ms2, 3)
        | flag(self.diag, 4)
        | field(self.zero2 as u32, 0x1, 5)
        | flag(self.pdn_uart, 6)
        | flag(self.step, 7)
        | flag(self.spread_en, 8)
        | flag(self.dir, 9)
        | field(self.version as u32, 0xff, 24)
    }

    fn from_word(w: u32) -> (r: Self) {
        Ioin {
            enn: get_flag(w, 0),
            zero1: get_field(w, 0x1, 1) as u8,
            ms1: get_flag(w, 2),
            ms2: get_flag(w, 3),
            diag: get_flag(w, 4),
            zero2: get_field(w, 0x1, 5) as u8,
            pdn_uart: get_flag(w, 6),
            step: get_flag(w, 7),
            spread_en: get_flag(w, 8),
            dir: get_flag(w, 9),
            version: get_field(w, 0xff, 24) as u8,
        }
    }

    open spec fn spec_fits(&self) -> bool {
        self.zero1 <= 0x1 && self.zero2 <= 0x1
    }

    proof fn lemma_word_round_trip(&self) {
        let w = self.spec_word();
        let x0 = self.enn;
        let x1 = self.zero1;
        let x2 = self.ms1;
        let x3 = self.ms2;
        let x4 = self.diag;
        let x5 = self.zero2;
        let x6 = self.pdn_uart;
        let x7 = self.step;
        let x8 = self.spread_en;
        let x9 = self.dir;
        let x10 = self.version;
        assert(
            flag_at(w, 0) == x0
            && field_at(w, 0x1, 1) as u8 == x1
            && flag_at(w, 2) == x2
            && flag_at(w, 3) == x3
            && flag_at(w, 4) == x4
            && field_at(w, 0x1, 5) as u8 == x5
            && flag_at(w, 6) == x6
            && flag_at(w, 7) == x7
            && flag_at(w, 8) == x8
            && flag_at(w, 9) == x9
            && field_at(w, 0xff, 24) as u8 == x10
        ) by (bit_vector)
            requires
                w == flag_bits(x0, 0)
                    | field_bits(x1 as u32, 0x1, 1)
                    | flag_bits(x2, 2)
                    | flag_bits(x3, 3)
                    | flag_bits(x4, 4)
                    | field_bits(x5 as u32, 0x1, 5)
                    | flag_bits(x6, 6)
                    | flag_bits(x7, 7)
                    | flag_bits(x8, 8)
                    | flag_bits(x9, 9)
                    | field_bits(x10 as u32, 0xff, 24),
                x1 <= 0x1,
                x5 <= 0x1,
        ;
    }
}

/// GCONF: global configuration flags.
#[derive(Debug, Clone, Copy, Default, PartialEq, Eq, Structural)]
pub struct Gconf {
    pub i_scale_analog: bool,
    pub internal_rsense: bool,
    pub en_spreadcycle: bool,
    pub shaft: bool,
    pub index_otpw: bool,
    pub index_step: bool,
    pub pdn_disable: bool,
    pub mstep_reg_select: bool,
    pub multistep_filt: bool,
    pub test_mode: bool,
}

impl Datagram for Gconf {
    open spec fn spec_read_addr() -> u8 {
        0x00
    }

    open spec fn spec_word(&self) -> u32 {
        flag_bits(self.i_scale_analog, 0)
        | flag_bits(self.internal_rsense, 1)
        | flag_bits(self.en_spreadcycle, 2)
        | flag_bits(self.shaft, 3)
        | flag_bits(self.index_otpw, 4)
        | flag_bits(self.index_step, 5)
        | flag_bits(self.pdn_disable, 6)
        | flag_bits(self.mstep_reg_select, 7)
        | flag_bits(self.multistep_filt, 8)
        | flag_bits(self.test_mode, 9)
    }

    open spec fn spec_from_word(w: u32) -> Self {
        Gconf {
            i_scale_analog: flag_at(w, 0),
            internal_rsense: flag_at(w, 1),
            en_spreadcycle: flag_at(w, 2),
            shaft: flag_at(w, 3),
            index_otpw: flag_at(w, 4),
            index_step: flag_at(w, 5),
            pdn_disable: flag_at(w, 6),
            mstep_reg_select: flag_at(w, 7),
            multistep_filt: flag_at(w, 8),
            test_mode: flag_at(w, 9),
        }
    }

    fn read_reg_addr() -> (r: u8) {
        0x00
    }

    fn to_word(&self) -> (w: u32) {
        flag(self.i_scale_analog, 0)
        | flag(self.internal_rsense, 1)
        | flag(self.en_spreadcycle, 2)
        | flag(self.shaft, 3)
        | flag(self.index_otpw, 4)
        | flag(self.index_step, 5)
        | flag(self.pdn_disable, 6)
        | flag(self.mstep_reg_select, 7)
        | flag(self.multistep_filt, 8)
        | flag(self.test_mode, 9)
    }

    fn from_word(w: u32) -> (r: Self) {
        Gconf {
            i_scale_analog: get_flag(w, 0),
            internal_rsense: get_flag(w, 1),
            en_spreadcycle: get_flag(w, 2),
            shaft: get_flag(w, 3),
            index_otpw: get_flag(w, 4),
            index_step: get_flag(w, 5),
            pdn_disable: get_flag(w, 6),
            mstep_reg_select: get_flag(w, 7),
            multistep_filt: get_flag(w, 8),
            test_mode: get_flag(w, 9),
        }
    }

    open spec fn spec_fits(&self) -> bool {
        true
    }

    proof fn lemma_word_round_trip(&self) {
        let w = self.spec_word();
        let x0 = self.i_scale_analog;
        let x1 = self.internal_rsense;
        let x2 = self.en_spreadcycle;
        let x3 = self.shaft;
        let x4 = self.index_otpw;
        let x5 = self.index_step;
        let x6 = self.pdn_disable;
        let x7 = self.mstep_reg_select;
        let x8 = self.multistep_filt;
        let x9 = self.test_mode;
        assert(
            flag_at(w, 0) == x0
            && flag_at(w, 1) == x1
            && flag_at(w, 2) == x2
            && flag_at(w, 3) == x3
            && flag_at(w, 4) == x4
            && flag_at(w, 5) == x5
            && flag_at(w, 6) == x6
            && flag_at(w, 7) == x7
            && flag_at(w, 8) == x8
            && flag_at(w, 9) == x9
        ) by (bit_vector)
            requires
                w == flag_bits(x0, 0)
                    | flag_bits(x1, 1)
                    | flag_bits(x2, 2)
                    | flag_bits(x3, 3)
                    | flag_bits(x4, 4)
                    | flag_bits(x5, 5)
                    | flag_bits(x6, 6)
                    | flag_bits(x7, 7)
                    | flag_bits(x8, 8)
                    | flag_bits(x9, 9),
        ;
    }
}

/// GSTAT: global status flags.
#[derive(Debug, Clone, Copy, Default, PartialEq, Eq, Structural)]
pub struct GStat {
    pub reset: bool,
    pub drv_err: bool,
    pub uv_cp: bool,
}

impl Datagram for GStat {
    open spec fn spec_read_addr() -> u8 {
        0x01
    }

    open spec fn spec_word(&self) -> u32 {
        flag_bits(self.reset, 0) | flag_bits(self.drv_err, 1) | flag_bits(self.uv_cp, 2)
    }

    open spec fn spec_from_word(w: u32) -> Self {
        GStat {
            reset: flag_at(w, 0),
            drv_err: flag_at(w, 1),
            uv_cp: flag_at(w, 2),
        }
    }

    fn read_reg_addr() -> (r: u8) {
        0x01
    }

    fn to_word(&self) -> (w: u32) {
        flag(self.reset, 0) | flag(self.drv_err, 1) | flag(self.uv_cp, 2)
    }

    fn from_word(w: u32) -> (r: Self) {
        GStat {
            reset: get_flag(w, 0),
            drv_err: get_flag(w, 1),
            uv_cp: get_flag(w, 2),
        }
    }

    open spec fn spec_fits(&self) -> bool {
        true
    }

    proof fn lemma_word_round_trip(&self) {
        let w = self.spec_word();
        let x0 = self.reset;
        let x1 = self.drv_err;
        let x2 = self.uv_cp;
        assert(flag_at(w, 0) == x0 && flag_at(w, 1) == x1 && flag_at(w, 2) == x2) by (bit_vector)
            requires
                w == flag_bits(x0, 0) | flag_bits(x1, 1) | flag_bits(x2, 2),
        ;
    }
}

/// NODECONF: the delay before the driver answers a read request.
#[derive(Debug, Clone, Copy, Default, PartialEq, Eq, Structural)]
pub struct NodeConf {
    pub send_delay: u8,
}

impl Datagram for NodeConf {
    open spec fn spec_read_addr() -> u8 {
        0x03
    }

    open spec fn spec_word(&self) -> u32 {
        field_bits(self.send_delay as u32, 0xf, 8)
    }

    open spec fn spec_from_word(w: u32) -> Self {
        NodeConf {
            send_delay: field_at(w, 0xf, 8) as u8,
        }
    }

    fn read_reg_addr() -> (r: u8) {
        0x03
    }

    fn to_word(&self) -> (w: u32) {
        field(self.send_delay as u32, 0xf, 8)
    }

    fn from_word(w: u32) -> (r: Self) {
        NodeConf {
            send_delay: get_field(w, 0xf, 8) as u8,
        }
    }

    open spec fn spec_fits(&self) -> bool {
        self.send_delay <= 0xf
    }

    proof fn lemma_word_round_trip(&self) {
        let w = self.spec_word();
        let x0 = self.send_delay;
        assert(field_at(w, 0xf, 8) as u8 == x0) by (bit_vector)
            requires
                w == field_bits(x0 as u32, 0xf, 8),
                x0 <= 0xf,
        ;
    }
}

/// IHOLD_IRUN: standstill and run currents and the delay between them.
#[derive(Debug, Clone, Copy, Default, PartialEq, Eq, Structural)]
pub struct IHoldIRun {
    pub ihold: u8,
    pub irun: u8,
    pub ihold_delay: u8,
}

impl Datagram for IHoldIRun {
    open spec fn spec_read_addr() -> u8 {
        0x10
    }

    open spec fn spec_word(&self) -> u32 {
        field_bits(self.ihold as u32, 0x1f, 0)
        | field_bits(self.irun as u32, 0x1f, 8)
        | field_bits(self.ihold_delay as u32, 0xf, 16)
    }

    open spec fn spec_from_word(w: u32) -> Self {
        IHoldIRun {
            ihold: field_at(w, 0x1f, 0) as u8,
            irun: field_at(w, 0x1f, 8) as u8,
            ihold_delay: field_at(w, 0xf, 16) as u8,
        }
    }

    fn read_reg_addr() -> (r: u8) {
        0x10
    }

    fn to_word(&self) -> (w: u32) {
        field(self.ihold as u32, 0x1f, 0)
        | field(self.irun as u32, 0x1f, 8)
        | field(self.ihold_delay as u32, 0xf, 16)
    }

    fn from_word(w: u32) -> (r: Self) {
        IHoldIRun {
            ihold: get_field(w, 0x1f, 0) as u8,
            irun: get_field(w, 0x1f, 8) as u8,
            ihold_delay: get_field(w, 0xf, 16) as u8,
        }
    }

    open spec fn spec_fits(&self) -> bool {
        self.ihold <= 0x1f && self.irun <= 0x1f && self.ihold_delay <= 0xf
    }

    proof fn lemma_word_round_trip(&self) {
        let w = self.spec_word();
        let x0 = self.ihold;
        let x1 = self.irun;
        let x2 = self.ihold_delay;
        assert(
            field_at(w, 0x1f, 0) as u8 == x0
            && field_at(w, 0x1f, 8) as u8 == x1
            && field_at(w, 0xf, 16) as u8 == x2
        ) by (bit_vector)
            requires
                w == field_bits(x0 as u32, 0x1f, 0)
                    | field_bits(x1 as u32, 0x1f, 8)
                    | field_bits(x2 as u32, 0xf, 16),
                x0 <= 0x1f,
                x1 <= 0x1f,
                x2 <= 0xf,
        ;
    }
}

/// TPOWERDOWN: the delay from standstill to current reduction.
#[derive(Debug, Clone, Copy, Default, PartialEq, Eq, Structural)]
pub struct TPowerDown {
    pub tpower_down: u8,
}

impl Datagram for TPowerDown {
    open spec fn spec_read_addr() -> u8 {
        0x11
    }

    open spec fn spec_word(&self) -> u32 {
        field_bits(self.tpower_down as u32, 0xff, 0)
    }

    open spec fn spec_from_word(w: u32) -> Self {
        TPowerDown {
            tpower_down: field_at(w, 0xff, 0) as u8,
        }
    }

    fn read_reg_addr() -> (r: u8) {
        0x11
    }

    fn to_word(&self) -> (w: u32) {
        field(self.tpower_down as u32, 0xff, 0)
    }

    fn from_word(w: u32) -> (r: Self) {
        TPowerDown {
            tpower_down: get_field(w, 0xff, 0) as u8,
        }
    }

    open spec fn spec_fits(&self) -> bool {
        true
    }

    proof fn lemma_word_round_trip(&self) {
        let w = self.spec_word();
        let x0 = self.tpower_down;
        assert(field_at(w, 0xff, 0) as u8 == x0) by (bit_vector)
            requires
                w == field_bits(x0 as u32, 0xff, 0),
        ;
    }
}

/// TSTEP: the measured time between two steps (20 bits).
#[derive(Debug, Clone, Copy, Default, PartialEq, Eq, Structural)]
pub struct TStep {
    pub tstep: u32,
}

impl Datagram for TStep {
    open spec fn spec_read_addr() -> u8 {
        0x12
    }

    open spec fn spec_word(&self) -> u32 {
        field_bits(self.tstep, 0xfffff, 0)
    }

    open spec fn spec_from_word(w: u32) -> Self {
        TStep {
            tstep: field_at(w, 0xfffff, 0),
        }
    }

    fn read_reg_addr() -> (r: u8) {
        0x12
    }

    fn to_word(&self) -> (w: u32) {
        field(self.tstep, 0xfffff, 0)
    }

    fn from_word(w: u32) -> (r: Self) {
        TStep {
            tstep: get_field(w, 0xfffff, 0),
        }
    }

    open spec fn spec_fits(&self) -> bool {
        self.tstep <= 0xfffff
    }

    proof fn lemma_word_round_trip(&self) {
        let w = self.spec_word();
        let x0 = self.tstep;
        assert(field_at(w, 0xfffff, 0) == x0) by (bit_vector)
            requires
                w == field_bits(x0, 0xfffff, 0),
                x0 <= 0xfffff,
        ;
    }
}

/// TPWMTHRS: the upper velocity for StealthChop (20 bits).
#[derive(Debug, Clone, Copy, Default, PartialEq, Eq, Structural)]
pub struct TpwmThrs {
    pub tpwm_thrs: u32,
}

impl Datagram for TpwmThrs {
    open spec fn spec_read_addr() -> u8 {
        0x13
    }

    open spec fn spec_word(&self) -> u32 {
        field_bits(self.tpwm_thrs, 0xfffff, 0)
    }

    open spec fn spec_from_word(w: u32) -> Self {
        TpwmThrs {
            tpwm_thrs: field_at(w, 0xfffff, 0),
        }
    }

    fn read_reg_addr() -> (r: u8) {
        0x13
    }

    fn to_word(&self) -> (w: u32) {
        field(self.tpwm_thrs, 0xfffff, 0)
    }

    fn from_word(w: u32) -> (r: Self) {
        TpwmThrs {
            tpwm_thrs: get_field(w, 0xfffff, 0),
        }
    }

    open spec fn spec_fits(&self) -> bool {
        self.tpwm_thrs <= 0xfffff
    }

    proof fn lemma_word_round_trip(&self) {
        let w = self.spec_word();
        let x0 = self.tpwm_thrs;
        assert(field_at(w, 0xfffff, 0) == x0) by (bit_vector)
            requires
                w == field_bits(x0, 0xfffff, 0),
                x0 <= 0xfffff,
        ;
    }
}

/// TCOOLTHRS: the lower velocity for CoolStep and StallGuard output (20 bits).
#[derive(Debug, Clone, Copy, Default, PartialEq, Eq, Structural)]
pub struct TCoolThrs {
    pub tcoolthrs: u32,
}

impl Datagram for TCoolThrs {
    open spec fn spec_read_addr() -> u8 {
        0x14
    }

    open spec fn spec_word(&self) -> u32 {
        field_bits(self.tcoolthrs, 0xfffff, 0)
    }

    open spec fn spec_from_word(w: u32) -> Self {
        TCoolThrs {
            tcoolthrs: field_at(w, 0xfffff, 0),
        }
    }

    fn read_reg_addr() -> (r: u8) {
        0x14
    }

    fn to_word(&self) -> (w: u32) {
        field(self.tcoolthrs, 0xfffff, 0)
    }

    fn from_word(w: u32) -> (r: Self) {
        TCoolThrs {
            tcoolthrs: get_field(w, 0xfffff, 0),
        }
    }

    open spec fn spec_fits(&self) -> bool {
        self.tcoolthrs <= 0xfffff
    }

    proof fn lemma_word_round_trip(&self) {
        let w = self.spec_word();
        let x0 = self.tcoolthrs;
        assert(field_at(w, 0xfffff, 0) == x0) by (bit_vector)
            requires
                w == field_bits(x0, 0xfffff, 0),
                x0 <= 0xfffff,
        ;
    }
}

/// CHOPCONF: chopper and driver configuration.
#[derive(Debug, Clone, Copy, Default, PartialEq, Eq, Structural)]
pub struct ChopConf {
    pub toff: u8,
    pub hstrt: u8,
    pub hend: u8,
    pub tbl: u8,
    pub vsense: bool,
    pub mres: u8,
    pub intpol: bool,
    pub dedge: bool,
    pub diss2g: bool,
    pub diss2vs: bool,
}

impl Datagram for ChopConf {
    open spec fn spec_read_addr() -> u8 {
        0x6C
    }

    open spec fn spec_word(&self) -> u32 {
        field_bits(self.toff as u32, 0xf, 0)
        | field_bits(self.hstrt as u32, 0x7, 4)
        | field_bits(self.hend as u32, 0x7, 8)
        | field_bits(self.tbl as u32, 0x3, 15)
        | flag_bits(self.vsense, 17)
        | field_bits(self.mres as u32, 0xf, 24)
        | flag_bits(self.intpol, 28)
        | flag_bits(self.dedge, 29)
        | flag_bits(self.diss2g, 30)
        | flag_bits(self.diss2vs, 31)
    }

    open spec fn spec_from_word(w: u32) -> Self {
        ChopConf {
            toff: field_at(w, 0xf, 0) as u8,
            hstrt: field_at(w, 0x7, 4) as u8,
            hend: field_at(w, 0x7, 8) as u8,
            tbl: field_at(w, 0x3, 15) as u8,
            vsense: flag_at(w, 17),
            mres: field_at(w, 0xf, 24) as u8,
            intpol: flag_at(w, 28),
            dedge: flag_at(w, 29),
            diss2g: flag_at(w, 30),
            diss2vs: flag_at(w, 31),
        }
    }

    fn read_reg_addr() -> (r: u8) {
        0x6C
    }

    fn to_word(&self) -> (w: u32) {
        field(self.toff as u32, 0xf, 0)
        | field(self.hstrt as u32, 0x7, 4)
        | field(self.hend as u32, 0x7, 8)
        | field(self.tbl as u32, 0x3, 15)
        | flag(self.vsense, 17)
        | field(self.mres as u32, 0xf, 24)
        | flag(self.intpol, 28)
        | flag(self.dedge, 29)
        | flag(self.diss2g, 30)
        | flag(self.diss2vs, 31)
    }

    fn from_word(w: u32) -> (r: Self) {
        ChopConf {
            toff: get_field(w, 0xf, 0) as u8,
            hstrt: get_field(w, 0x7, 4) as u8,
            hend: get_field(w, 0x7, 8) as u8,
            tbl: get_field(w, 0x3, 15) as u8,
            vsense: get_flag(w, 17),
            mres: get_field(w, 0xf, 24) as u8,
            intpol: get_flag(w, 28),
            dedge: get_flag(w, 29),
            diss2g: get_flag(w, 30),
            diss2vs: get_flag(w, 31),
        }
    }

    open spec fn spec_fits(&self) -> bool {
        self.toff <= 0xf && self.hstrt <= 0x7 && self.hend <= 0x7 && self.tbl <= 0x3
            && self.mres <= 0xf
    }

    proof fn lemma_word_round_trip(&self) {
        let w = self.spec_word();
        let x0 = self.toff;
        let x1 = self.hstrt;
        let x2 = self.hend;
        let x3 = self.tbl;
        let x4 = self.vsense;
        let x5 = self.mres;
        let x6 = self.intpol;
        let x7 = self.dedge;
        let x8 = self.diss2g;
        let x9 = self.diss2vs;
        assert(
            field_at(w, 0xf, 0) as u8 == x0
            && field_at(w, 0x7, 4) as u8 == x1
            && field_at(w, 0x7, 8) as u8 == x2
            && field_at(w, 0x3, 15) as u8 == x3
            && flag_at(w, 17) == x4
            && field_at(w, 0xf, 24) as u8 == x5
            && flag_at(w, 28) == x6
            && flag_at(w, 29) == x7
            && flag_at(w, 30) == x8
            && flag_at(w, 31) == x9
        ) by (bit_vector)
            requires
                w == field_bits(x0 as u32, 0xf, 0)
                    | field_bits(x1 as u32, 0x7, 4)
                    | field_bits(x2 as u32, 0x7, 8)
                    | field_bits(x3 as u32, 0x3, 15)
                    | flag_bits(x4, 17)
                    | field_bits(x5 as u32, 0xf, 24)
                    | flag_bits(x6, 28)
                    | flag_bits(x7, 29)
                    | flag_bits(x8, 30)
                    | flag_bits(x9, 31),
                x0 <= 0xf,
                x1 <= 0x7,
                x2 <= 0x7,
                x3 <= 0x3,
                x5 <= 0xf,
        ;
    }
}

/// PWMCONF: StealthChop voltage PWM configuration.
#[derive(Debug, Clone, Copy, Default, PartialEq, Eq, Structural)]
pub struct PwmConf {
    pub pwm_ofs: u8,
    pub pwm_grad: u8,
    pub pwm_freq: u8,
    pub pwm_autoscale: bool,
    pub pwm_autograd: bool,
    pub freewheel0: bool,
    pub freewheel1: bool,
    pub pwm_reg: u8,
    pub pwm_ilm: u8,
}

impl Datagram for PwmConf {
    open spec fn spec_read_addr() -> u8 {
        0x70
    }

    open spec fn spec_word(&self) -> u32 {
        field_bits(self.pwm_ofs as u32, 0xff, 0)
        | field_bits(self.pwm_grad as u32, 0xff, 8)
        | field_bits(self.pwm_freq as u32, 0x3, 16)
        | flag_bits(self.pwm_autoscale, 18)
        | flag_bits(self.pwm_autograd, 19)
        | flag_bits(self.freewheel0, 20)
        | flag_bits(self.freewheel1, 21)
        | field_bits(self.pwm_reg as u32, 0xf, 24)
        | field_bits(self.pwm_ilm as u32, 0xf, 28)
    }

    open spec fn spec_from_word(w: u32) -> Self {
        PwmConf {
            pwm_ofs: field_at(w, 0xff, 0) as u8,
            pwm_grad: field_at(w, 0xff, 8) as u8,
            pwm_freq: field_at(w, 0x3, 16) as u8,
            pwm_autoscale: flag_at(w, 18),
            pwm_autograd: flag_at(w, 19),
            freewheel0: flag_at(w, 20),
            freewheel1: flag_at(w, 21),
            pwm_reg: field_at(w, 0xf, 24) as u8,
            pwm_ilm: field_at(w, 0xf, 28) as u8,
        }
    }

    fn read_reg_addr() -> (r: u8) {
        0x70
    }

    fn to_word(&self) -> (w: u32) {
        field(self.pwm_ofs as u32, 0xff, 0)
        | field(self.pwm_grad as u32, 0xff, 8)
        | field(self.pwm_freq as u32, 0x3, 16)
        | flag(self.pwm_autoscale, 18)
        | flag(self.pwm_autograd, 19)
        | flag(self.freewheel0, 20)
        | flag(self.freewheel1, 21)
        | field(self.pwm_reg as u32, 0xf, 24)
        | field(self.pwm_ilm as u32, 0xf, 28)
    }

    fn from_word(w: u32) -> (r: Self) {
        PwmConf {
            pwm_ofs: get_field(w, 0xff, 0) as u8,
            pwm_grad: get_field(w, 0xff, 8) as u8,
            pwm_freq: get_field(w, 0x3, 16) as u8,
            pwm_autoscale: get_flag(w, 18),
            pwm_autograd: get_flag(w, 19),
            freewheel0: get_flag(w, 20),
            freewheel1: get_flag(w, 21),
            pwm_reg: get_field(w, 0xf, 24) as u8,
            pwm_ilm: get_field(w, 0xf, 28) as u8,
        }
    }

    open spec fn spec_fits(&self) -> bool {
        self.pwm_freq <= 0x3 && self.pwm_reg <= 0xf && self.pwm_ilm <= 0xf
    }

    proof fn lemma_word_round_trip(&self) {
        let w = self.spec_word();
        let x0 = self.pwm_ofs;
        let x1 = self.pwm_grad;
        let x2 = self.pwm_freq;
        let x3 = self.pwm_autoscale;
        let x4 = self.pwm_autograd;
        let x5 = self.freewheel0;
        let x6 = self.freewheel1;
        let x7 = self.pwm_reg;
        let x8 = self.pwm_ilm;
        assert(
            field_at(w, 0xff, 0) as u8 == x0
            && field_at(w, 0xff, 8) as u8 == x1
            && field_at(w, 0x3, 16) as u8 == x2
            && flag_at(w, 18) == x3
            && flag_at(w, 19) == x4
            && flag_at(w, 20) == x5
            && flag_at(w, 21) == x6
            && field_at(w, 0xf, 24) as u8 == x7
            && field_at(w, 0xf, 28) as u8 == x8
        ) by (bit_vector)
            requires
                w == field_bits(x0 as u32, 0xff, 0)
                    | field_bits(x1 as u32, 0xff, 8)
                    | field_bits(x2 as u32, 0x3, 16)
                    | flag_bits(x3, 18)
                    | flag_bits(x4, 19)
                    | flag_bits(x5, 20)
                    | flag_bits(x6, 21)
                    | field_bits(x7 as u32, 0xf, 24)
                    | field_bits(x8 as u32, 0xf, 28),
                x2 <= 0x3,
                x7 <= 0xf,
                x8 <= 0xf,
        ;
    }
}


/// VACTUAL: the velocity the driver moves at by itself, a 24-bit two's
/// complement value; zero hands motion back to the STEP input.
#[derive(Debug, Clone, Copy, Default, PartialEq, Eq, Structural)]
pub struct VActual {
    pub vactual: i32,
}

impl VActual {
    /// A VACTUAL value holding `v`.
    pub fn new(v: i32) -> (r: Self)
        ensures
            r.vactual == v,
    {
        VActual { vactual: v }
    }
}

impl Datagram for VActual {
    open spec fn spec_read_addr() -> u8 {
        0x22
    }

    open spec fn spec_word(&self) -> u32 {
        (self.vactual as u32) & 0xffffff
    }

    open spec fn spec_from_word(w: u32) -> Self {
        if w & 0x800000 != 0 {
            VActual { vactual: ((w & 0xffffff) | 0xff000000) as i32 }
        } else {
            VActual { vactual: (w & 0xffffff) as i32 }
        }
    }

    fn read_reg_addr() -> (r: u8) {
        0x22
    }

    fn to_word(&self) -> (w: u32) {
        (self.vactual as u32) & 0xffffff
    }

    fn from_word(w: u32) -> (r: Self) {
        if w & 0x800000 != 0 {
            VActual { vactual: ((w & 0xffffff) | 0xff000000) as i32 }
        } else {
            VActual { vactual: (w & 0xffffff) as i32 }
        }
    }

    open spec fn spec_fits(&self) -> bool {
        -0x800000 <= self.vactual < 0x800000
    }

    proof fn lemma_word_round_trip(&self) {
        let w = self.spec_word();
        let v = self.vactual;
        assert(if w & 0x800000 != 0 {
            ((w & 0xffffff) | 0xff000000) as i32 == v
        } else {
            (w & 0xffffff) as i32 == v
        }) by (bit_vector)
            requires
                w == (v as u32) & 0xffffff,
                -0x800000 <= v < 0x800000,
        ;
    }
}

impl Ioin {
    /// Checks the two reserved bits, which a driver that was read correctly
    /// reports as zero.
    pub fn check_reserved(&self) -> (r: Result<(), TMCError>)
        ensures
            (self.zero1 == 0 && self.zero2 == 0) ==> r is Ok,
            !(self.zero1 == 0 && self.zero2 == 0) ==> r == Err::<(), TMCError>(
                TMCError::UnpackingError,
            ),
    {
        if self.zero1 == 0 && self.zero2 == 0 {
            Ok(())
        } else {
            Err(TMCError::UnpackingError)
        }
    }
}

impl TCoolThrs {
    /// A TCOOLTHRS value holding `v`.
    pub fn new(v: u32) -> (r: Self)
        ensures
            r.tcoolthrs == v,
    {
        TCoolThrs { tcoolthrs: v }
    }
}

/// The registers of the catalog, by name.
#[derive(Debug, Clone, Copy, PartialEq, Eq, Structural)]
pub enum TMC2209Register {
    GConf,
    GStat,
    IfCnt,
    NodeConf,
    Ioin,
    IHoldIRun,
    TPowerDown,
    TStep,
    TpwmThrs,
    TCoolThrs,
    VActual,
    ChopConf,
    PwmConf,
}

impl TMC2209Register {
    /// The read address of each register, as the datasheet gives it.
    pub open spec fn spec_read_value(self) -> u8 {
        match self {
            TMC2209Register::GConf => 0x00,
            TMC2209Register::GStat => 0x01,
            TMC2209Register::IfCnt => 0x02,
            TMC2209Register::NodeConf => 0x03,
            TMC2209Register::Ioin => 0x06,
            TMC2209Register::IHoldIRun => 0x10,
            TMC2209Register::TPowerDown => 0x11,
            TMC2209Register::TStep => 0x12,
            TMC2209Register::TpwmThrs => 0x13,
            TMC2209Register::TCoolThrs => 0x14,
            TMC2209Register::VActual => 0x22,
            TMC2209Register::ChopConf => 0x6C,
            TMC2209Register::PwmConf => 0x70,
        }
    }

    /// Returns the register's read address.
    pub fn read_value(&self) -> (r: u8)
        ensures
            r == self.spec_read_value(),
            r < WRITE_OFFSET,
    {
        match *self {
            TMC2209Register::GConf => 0x00,
            TMC2209Register::GStat => 0x01,
            TMC2209Register::IfCnt => 0x02,
            TMC2209Register::NodeConf => 0x03,
            TMC2209Register::Ioin => 0x06,
            TMC2209Register::IHoldIRun => 0x10,
            TMC2209Register::TPowerDown => 0x11,
            TMC2209Register::TStep => 0x12,
            TMC2209Register::TpwmThrs => 0x13,
            TMC2209Register::TCoolThrs => 0x14,
            TMC2209Register::VActual => 0x22,
            TMC2209Register::ChopConf => 0x6C,
            TMC2209Register::PwmConf => 0x70,
        }
    }

    /// The write address of each register.
    pub open spec fn spec_write_value(self) -> u8 {
        (self.spec_read_value() + WRITE_OFFSET) as u8
    }

    /// Returns the register's write address: the read address plus `0x80`.
    pub fn write_value(&self) -> (r: u8)
        ensures
            r == self.spec_write_value(),
    {
        self.read_value() + WRITE_OFFSET
    }
}

/// Every register of the catalog has its write address at exactly its read
/// address plus `0x80`, with no wrap-around.
pub proof fn lemma_write_offset(reg: TMC2209Register)
    ensures
        reg.spec_write_value() == reg.spec_read_value() + 0x80,
{
}

/// Each register type reads at the address the catalog lists for it.
pub proof fn lemma_catalog_addresses()
    ensures
        <Gconf as Datagram>::spec_read_addr() == TMC2209Register::GConf.spec_read_value(),
        <GStat as Datagram>::spec_read_addr() == TMC2209Register::GStat.spec_read_value(),
        <IfCnt as Datagram>::spec_read_addr() == TMC2209Register::IfCnt.spec_read_value(),
        <NodeConf as Datagram>::spec_read_addr() == TMC2209Register::NodeConf.spec_read_value(),
        <Ioin as Datagram>::spec_read_addr() == TMC2209Register::Ioin.spec_read_value(),
        <IHoldIRun as Datagram>::spec_read_addr() == TMC2209Register::IHoldIRun.spec_read_value(),
        <TPowerDown as Datagram>::spec_read_addr() == TMC2209Register::TPowerDown.spec_read_value(),
        <TStep as Datagram>::spec_read_addr() == TMC2209Register::TStep.spec_read_value(),
        <TpwmThrs as Datagram>::spec_read_addr() == TMC2209Register::TpwmThrs.spec_read_value(),
        <TCoolThrs as Datagram>::spec_read_addr() == TMC2209Register::TCoolThrs.spec_read_value(),
        <VActual as Datagram>::spec_read_addr() == TMC2209Register::VActual.spec_read_value(),
        <ChopConf as Datagram>::spec_read_addr() == TMC2209Register::ChopConf.spec_read_value(),
        <PwmConf as Datagram>::spec_read_addr() == TMC2209Register::PwmConf.spec_read_value(),
{
}

} // verus!
