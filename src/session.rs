//! The per-axis driver session: its output pin levels, and the decisions of
//! the read and write protocols, one bus exchange at a time.
//!
//! The session never touches the line itself. Each protocol step returns an
//! [`Action`]: either an exchange for the caller to run while holding the
//! shared bus (transmit `tx`, then receive exactly `rx_len` bytes, echo
//! included), or the final outcome. The caller reports back what the
//! exchange gave as a [`BusEvent`].
use vstd::prelude::*;

use crate::datagram::{
    check_reply, decode_reply, encode_read_request, encode_write_request, lemma_reply_round_trip,
    read_frame, reply_frame, write_frame, MAX_DRIVER_ADDRESS, WRITE_OFFSET,
};
use crate::error::TMCError;
use crate::registers::{bytes_of, payload_from_word, word_of, Datagram, IfCnt};

verus! {

/// Bytes received for a read: the 4 echoed request bytes and the 8-byte reply.
pub const READ_RX_LEN: usize = 12;

/// Bytes received for a verified write: the echoed 8-byte write and 4-byte
/// counter read, then the 8-byte reply.
pub const WRITE_RX_LEN: usize = 20;

/// Seconds an exchange may take before it fails with a timeout.
pub const EXCHANGE_TIMEOUT_SECS: u64 = 1;

/// The sense in which the motor shaft turns.
#[derive(Debug, Clone, Copy, PartialEq, Eq, Structural)]
pub enum Direction {
    CounterClockwise,
    Clockwise,
}

/// What the bus exchange that an [`Action::Exchange`] asked for gave.
pub enum BusEvent {
    /// The bytes received after transmitting.
    Received(Vec<u8>),
    /// The expected bytes did not arrive within the timeout.
    TimedOut,
    /// The serial line failed while transmitting or receiving.
    IoFailed,
}

/// What the caller must do next.
pub enum Action {
    /// Hold the bus, transmit `tx`, receive exactly `rx_len` bytes, release
    /// the bus, and report the result through [`TMC2209::resume`].
    Exchange { tx: Vec<u8>, rx_len: usize },
    /// A register read ended; on success it holds the payload received.
    ReadDone(Result<[u8; 4], TMCError>),
    /// A register write ended.
    WriteDone(Result<(), TMCError>),
}

/// A protocol operation waiting for the result of its current exchange.
#[derive(Debug, Clone, Copy)]
pub enum Operation {
    /// A read of the register at `reg`.
    Reading { reg: u8 },
    /// A write of `payload` to write address `waddr`, reading the interface
    /// counter first.
    CountingBeforeWrite { waddr: u8, payload: [u8; 4] },
    /// A write whose request went out with a counter read behind it; the
    /// counter stood at `before`.
    VerifyingWrite { before: u8 },
}

/// The bytes after the first `echo` received, where the driver's reply lies.
pub open spec fn reply_part(rx: Seq<u8>, echo: int) -> Seq<u8> {
    if rx.len() >= echo {
        rx.skip(echo)
    } else {
        Seq::empty()
    }
}

/// Whether the interface counter moved on from `before` to `after`,
/// wrapping from 255 to 0.
pub open spec fn counter_advanced(before: u8, after: u8) -> bool {
    after > before || (before == 255 && after == 0)
}

/// The outcome of a write once the counter has been read before and after it.
pub open spec fn write_verdict(before: u8, after: u8) -> Result<(), TMCError> {
    if counter_advanced(before, after) {
        Ok(())
    } else {
        Err(TMCError::WriteVerificationFailed(before, after))
    }
}

/// The error an exchange that did not deliver bytes ends an operation with.
pub open spec fn failure_of(ev: BusEvent) -> TMCError {
    match ev {
        BusEvent::TimedOut => TMCError::Timeout,
        _ => TMCError::IoError,
    }
}

/// The counter value a reply carries, when the reply checks out against IFCNT.
pub open spec fn counter_of(rx: Seq<u8>, echo: int) -> Result<u8, TMCError> {
    match check_reply(reply_part(rx, echo), IFCNT_ADDR) {
        Ok(p) => Ok(word_of(p) as u8),
        Err(e) => Err(e),
    }
}

/// Whether the counter moved on over a write.
pub fn ifcnt_advanced(before: u8, after: u8) -> (r: bool)
    ensures
        r == counter_advanced(before, after),
{
    after > before || (before == u8::MAX && after == 0)
}

/// Decides the outcome of a write from the counter before and after it.
pub fn verify_write(before: u8, after: u8) -> (r: Result<(), TMCError>)
    ensures
        r == write_verdict(before, after),
{
    if ifcnt_advanced(before, after) {
        Ok(())
    } else {
        Err(TMCError::WriteVerificationFailed(before, after))
    }
}

fn reply_slice(rx: &[u8], echo: usize) -> (r: &[u8])
    ensures
        r@ == reply_part(rx@, echo as int),
{
    if rx.len() >= echo {
        vstd::slice::slice_subrange(rx, echo, rx.len())
    } else {
        let r: &[u8] = &[];
        assert(r@ =~= Seq::<u8>::empty());
        r
    }
}

fn read_counter(rx: &[u8], echo: usize) -> (r: Result<u8, TMCError>)
    ensures
        r == counter_of(rx@, echo as int),
{
    match IfCnt::from_datagram(reply_slice(rx, echo)) {
        Ok(c) => Ok(c.cnt),
        Err(e) => Err(e),
    }
}

/// The action that ends `op` with the error `e`.
pub open spec fn fail_action(op: Operation, e: TMCError) -> Action {
    match op {
        Operation::Reading { .. } => Action::ReadDone(Err(e)),
        _ => Action::WriteDone(Err(e)),
    }
}

/// Whether a read outcome carries what checking the reply gave.
pub open spec fn read_outcome_is(
    res: Result<[u8; 4], TMCError>,
    checked: Result<Seq<u8>, TMCError>,
) -> bool {
    match checked {
        Ok(p) => res is Ok && res->Ok_0@ == p,
        Err(e) => res == Err::<[u8; 4], TMCError>(e),
    }
}

fn fail(op: Operation, e: TMCError) -> (r: Action)
    ensures
        r == fail_action(op, e),
{
    match op {
        Operation::Reading { .. } => Action::ReadDone(Err(e)),
        _ => Action::WriteDone(Err(e)),
    }
}

fn append_bytes(v: &mut Vec<u8>, s: &[u8])
    ensures
        final(v)@ == old(v)@ + s@,
{
    let mut i: usize = 0;
    while i < s.len()
        invariant
            i <= s@.len(),
            v@ == old(v)@ + s@.take(i as int),
        decreases s@.len() - i,
    {
        v.push(s[i]);
        assert(s@.take((i + 1) as int) =~= s@.take(i as int).push(s@[i as int]));
        i = i + 1;
    }
    assert(s@.take(s@.len() as int) =~= s@);
}

/// The read address of the interface counter, read before and after every write.
pub const IFCNT_ADDR: u8 = 0x02;

/// One driver on the shared line: its bus address and the levels it holds
/// on its enable, step and direction outputs.
#[derive(Clone, Copy)]
pub struct TMC2209 {
    addr: u8,
    en_high: bool,
    step_high: bool,
    dir_high: bool,
}

impl TMC2209 {
    #[verifier::type_invariant]
    spec fn inv(&self) -> bool {
        self.addr <= MAX_DRIVER_ADDRESS
    }

    /// The driver's bus address.
    pub closed spec fn spec_addr(&self) -> u8 {
        self.addr
    }

    /// The level of the enable output (high: power stage off).
    pub closed spec fn spec_en_high(&self) -> bool {
        self.en_high
    }

    /// The level of the step output.
    pub closed spec fn spec_step_high(&self) -> bool {
        self.step_high
    }

    /// The level of the direction output.
    pub closed spec fn spec_dir_high(&self) -> bool {
        self.dir_high
    }

    /// A session for the driver at bus address `addr`, with the motor
    /// disabled and the step and direction outputs low.
    pub fn new(addr: u8) -> (r: Result<Self, TMCError>)
        ensures
            addr > MAX_DRIVER_ADDRESS ==> r == Err::<Self, TMCError>(
                TMCError::InvalidDriverAddress(addr),
            ),
            addr <= MAX_DRIVER_ADDRESS ==> r is Ok && r->Ok_0.spec_addr() == addr
                && r->Ok_0.spec_en_high() && !r->Ok_0.spec_step_high()
                && !r->Ok_0.spec_dir_high(),
    {
        if addr > MAX_DRIVER_ADDRESS {
            return Err(TMCError::InvalidDriverAddress(addr));
        }
        Ok(TMC2209 { addr, en_high: true, step_high: false, dir_high: false })
    }

    /// Returns the driver's bus address.
    pub fn addr(&self) -> (r: u8)
        ensures
            r == self.spec_addr(),
            r <= MAX_DRIVER_ADDRESS,
    {
        proof {
            use_type_invariant(self);
        }
        self.addr
    }

    /// Returns the level of the enable output.
    pub fn en_level(&self) -> (r: bool)
        ensures
            r == self.spec_en_high(),
    {
        self.en_high
    }

    /// Returns the level of the step output.
    pub fn step_level(&self) -> (r: bool)
        ensures
            r == self.spec_step_high(),
    {
        self.step_high
    }

    /// Returns the level of the direction output.
    pub fn dir_level(&self) -> (r: bool)
        ensures
            r == self.spec_dir_high(),
    {
        self.dir_high
    }

    /// Powers the stage on: the enable input is active low.
    pub fn enable(&mut self)
        ensures
            !final(self).spec_en_high(),
            final(self).spec_addr() == old(self).spec_addr(),
            final(self).spec_step_high() == old(self).spec_step_high(),
            final(self).spec_dir_high() == old(self).spec_dir_high(),
    {
        proof {
            use_type_invariant(&*self);
        }
        self.en_high = false;
    }

    /// Powers the stage off.
    pub fn disable(&mut self)
        ensures
            final(self).spec_en_high(),
            final(self).spec_addr() == old(self).spec_addr(),
            final(self).spec_step_high() == old(self).spec_step_high(),
            final(self).spec_dir_high() == old(self).spec_dir_high(),
    {
        proof {
            use_type_invariant(&*self);
        }
        self.en_high = true;
    }

    /// Toggles the step output once; the driver steps on the edge.
    pub fn step(&mut self)
        ensures
            final(self).spec_step_high() == !old(self).spec_step_high(),
            final(self).spec_addr() == old(self).spec_addr(),
            final(self).spec_en_high() == old(self).spec_en_high(),
            final(self).spec_dir_high() == old(self).spec_dir_high(),
    {
        proof {
            use_type_invariant(&*self);
        }
        self.step_high = !self.step_high;
    }

    /// Sets the direction output: high for clockwise, low for counter-clockwise.
    /// The mapping is fixed: the GCONF `shaft` bit is not consulted, so a
    /// driver configured with `shaft` set turns the other way for each level.
    pub fn set_direction(&mut self, dir: Direction)
        ensures
            final(self).spec_dir_high() == (dir == Direction::Clockwise),
            final(self).spec_addr() == old(self).spec_addr(),
            final(self).spec_en_high() == old(self).spec_en_high(),
            final(self).spec_step_high() == old(self).spec_step_high(),
    {
        proof {
            use_type_invariant(&*self);
        }
        self.dir_high = match dir {
            Direction::Clockwise => true,
            Direction::CounterClockwise => false,
        };
    }

    /// The direction the direction output currently selects.
    pub fn get_direction(&self) -> (r: Direction)
        ensures
            r == (if self.spec_dir_high() {
                Direction::Clockwise
            } else {
                Direction::CounterClockwise
            }),
    {
        if self.dir_high {
            Direction::Clockwise
        } else {
            Direction::CounterClockwise
        }
    }

    /// Starts a read of register `D`: one exchange of its read request.
    pub fn read_register<D: Datagram>(&self) -> (r: (Operation, Action))
        ensures
            r.0 == (Operation::Reading { reg: D::spec_read_addr() }),
            r.1 matches Action::Exchange { tx, rx_len } && tx@ == read_frame(
                self.spec_addr(),
                D::spec_read_addr(),
            ) && rx_len == READ_RX_LEN,
    {
        proof {
            use_type_invariant(self);
        }
        let reg = D::read_reg_addr();
        let req = encode_read_request(self.addr, reg).unwrap();
        let mut tx: Vec<u8> = Vec::new();
        append_bytes(&mut tx, &req);
        assert(tx@ =~= req@);
        (Operation::Reading { reg }, Action::Exchange { tx, rx_len: READ_RX_LEN })
    }

    /// Starts a verified write of `value`: first one exchange reading the
    /// interface counter.
    pub fn write_register<D: Datagram>(&self, value: &D) -> (r: (Operation, Action))
        ensures
            r.0 matches Operation::CountingBeforeWrite { waddr, payload } && waddr
                == D::spec_read_addr() + WRITE_OFFSET && payload@ == bytes_of(value.spec_word()),
            r.1 matches Action::Exchange { tx, rx_len } && tx@ == read_frame(
                self.spec_addr(),
                IFCNT_ADDR,
            ) && rx_len == READ_RX_LEN,
    {
        proof {
            use_type_invariant(self);
        }
        let waddr = D::write_reg_addr();
        let payload = payload_from_word(value.to_word());
        let req = encode_read_request(self.addr, IFCNT_ADDR).unwrap();
        let mut tx: Vec<u8> = Vec::new();
        append_bytes(&mut tx, &req);
        assert(tx@ =~= req@);
        (
            Operation::CountingBeforeWrite { waddr, payload },
            Action::Exchange { tx, rx_len: READ_RX_LEN },
        )
    }

    /// What a session does once the exchange of `op` has given `ev`: the
    /// operation that follows, if any, and the next action.
    pub open spec fn resume_post(
        &self,
        op: Operation,
        ev: BusEvent,
        r: (Option<Operation>, Action),
    ) -> bool {
        match ev {
            BusEvent::Received(rx) => match op {
                Operation::Reading { reg } => r.0 is None && (r.1 matches Action::ReadDone(res)
                    && read_outcome_is(res, check_reply(reply_part(rx@, 4), reg))),
                Operation::CountingBeforeWrite { waddr, payload } => match counter_of(rx@, 4) {
                    Ok(before) => r.0 == Some(Operation::VerifyingWrite { before })
                        && (r.1 matches Action::Exchange { tx, rx_len } && tx@ == write_frame(
                        self.spec_addr(),
                        waddr,
                        payload@,
                    ) + read_frame(self.spec_addr(), IFCNT_ADDR) && rx_len == WRITE_RX_LEN),
                    Err(e) => r.0 is None && r.1 == Action::WriteDone(Err(e)),
                },
                Operation::VerifyingWrite { before } => r.0 is None && match counter_of(rx@, 12) {
                    Ok(after) => r.1 == Action::WriteDone(write_verdict(before, after)),
                    Err(e) => r.1 == Action::WriteDone(Err(e)),
                },
            },
            _ => r.0 is None && r.1 == fail_action(op, failure_of(ev)),
        }
    }

    /// Takes the result of the exchange that `op` asked for and decides what
    /// comes next. Nothing is retried: every failure ends the operation.
    pub fn resume(&self, op: Operation, ev: BusEvent) -> (r: (Option<Operation>, Action))
        ensures
            self.resume_post(op, ev, r),
    {
        proof {
            use_type_invariant(self);
        }
        match ev {
            BusEvent::Received(rx) => match op {
                Operation::Reading { reg } => {
                    let res = decode_reply(reply_slice(rx.as_slice(), 4), reg);
                    (None, Action::ReadDone(res))
                },
                Operation::CountingBeforeWrite { waddr, payload } => {
                    match read_counter(rx.as_slice(), 4) {
                        Ok(before) => {
                            let w = encode_write_request(self.addr, waddr, payload).unwrap();
                            let q = encode_read_request(self.addr, IFCNT_ADDR).unwrap();
                            let mut tx: Vec<u8> = Vec::new();
                            append_bytes(&mut tx, &w);
                            append_bytes(&mut tx, &q);
                            assert(tx@ =~= w@ + q@);
                            (
                                Some(Operation::VerifyingWrite { before }),
                                Action::Exchange { tx, rx_len: WRITE_RX_LEN },
                            )
                        },
                        Err(e) => (None, Action::WriteDone(Err(e))),
                    }
                },
                Operation::VerifyingWrite { before } => {
                    match read_counter(rx.as_slice(), 12) {
                        Ok(after) => (None, Action::WriteDone(verify_write(before, after))),
                        Err(e) => (None, Action::WriteDone(Err(e))),
                    }
                },
            },
            BusEvent::TimedOut => (None, fail(op, TMCError::Timeout)),
            BusEvent::IoFailed => (None, fail(op, TMCError::IoError)),
        }
    }
}


/// A read whose exchange no other session broke into (the echo of its
/// four request bytes, then the driver's reply for its register) ends with
/// exactly the payload of that reply. If a reply for another register
/// stands in its place, the read ends in a register mismatch rather than
/// with a foreign payload.
pub proof fn lemma_exclusive_read(
    s: TMC2209,
    reg: u8,
    other: u8,
    echo: Seq<u8>,
    payload: Seq<u8>,
    own: Vec<u8>,
    foreign: Vec<u8>,
    r_own: (Option<Operation>, Action),
    r_foreign: (Option<Operation>, Action),
)
    requires
        echo.len() == 4,
        payload.len() == 4,
        own@ == echo + reply_frame(reg, payload),
        foreign@ == echo + reply_frame(other, payload),
        other != reg,
        s.resume_post(Operation::Reading { reg }, BusEvent::Received(own), r_own),
        s.resume_post(Operation::Reading { reg }, BusEvent::Received(foreign), r_foreign),
    ensures
        r_own.1 matches Action::ReadDone(res) && res is Ok && res->Ok_0@ == payload,
        r_foreign.1 == Action::ReadDone(
            Err(TMCError::RegisterAddressMismatch(reg, other)),
        ),
{
    assert(reply_part(own@, 4) =~= reply_frame(reg, payload));
    assert(reply_part(foreign@, 4) =~= reply_frame(other, payload));
    lemma_reply_round_trip(reg, payload);
    lemma_reply_round_trip(other, payload);
}

/// A write is reported applied only when the counter read after it
/// checked out and moved on from the value read before it.
pub proof fn lemma_write_success_is_verified(
    s: TMC2209,
    before: u8,
    ev: BusEvent,
    r: (Option<Operation>, Action),
)
    requires
        s.resume_post(Operation::VerifyingWrite { before }, ev, r),
        r.1 == Action::WriteDone(Ok(())),
    ensures
        ev matches BusEvent::Received(rx) && counter_of(rx@, 12) matches Ok(after)
            && counter_advanced(before, after),
{
}

} // verus!
