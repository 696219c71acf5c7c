use std::collections::VecDeque;

use embassy_tmc::bus::SharedBus;
use embassy_tmc::crc::crc8_atm;
use embassy_tmc::error::TMCError;
use embassy_tmc::registers::{GStat, Gconf, IfCnt, Ioin};
use embassy_tmc::session::{Action, BusEvent, Operation, TMC2209};

/// A half-duplex line in readback mode: every transmitted byte comes back,
/// and each read request is answered with a reply tagged by the request
/// that produced it (payload `[0, 0, driver, register]`).
struct Line {
    rx: VecDeque<u8>,
}

impl Line {
    fn transmit(&mut self, tx: &[u8]) {
        self.rx.extend(tx.iter().copied());
        if tx.len() == 4 && tx[0] == 0x05 {
            let mut r = vec![0x05, 0xFF, tx[2], 0, 0, tx[1], tx[2]];
            r.push(crc8_atm(&r));
            self.rx.extend(r);
        }
    }

    fn receive(&mut self, n: usize) -> Option<Vec<u8>> {
        if self.rx.len() < n {
            return None;
        }
        Some(self.rx.drain(..n).collect())
    }
}

#[derive(PartialEq)]
enum Stage {
    Acquire,
    Transmit,
    Receive,
    Done,
}

struct Task {
    session: TMC2209,
    reg: u8,
    op: Operation,
    tx: Vec<u8>,
    rx_len: usize,
    stage: Stage,
    result: Option<Result<[u8; 4], TMCError>>,
}

fn task(addr: u8) -> Task {
    let session = TMC2209::new(addr).unwrap();
    let (op, act) = match addr {
        0 => session.read_register::<Gconf>(),
        1 => session.read_register::<GStat>(),
        2 => session.read_register::<IfCnt>(),
        _ => session.read_register::<Ioin>(),
    };
    let reg = [0x00, 0x01, 0x02, 0x06][addr as usize];
    let (tx, rx_len) = match act {
        Action::Exchange { tx, rx_len } => (tx, rx_len),
        _ => panic!("a read starts with an exchange"),
    };
    Task { session, reg, op, tx, rx_len, stage: Stage::Acquire, result: None }
}

/// Advances one task by one step. With `hold_through`, the bus is held from
/// transmit to receive; without it, it is given back right after transmit.
fn advance(t: &mut Task, bus: &mut SharedBus, line: &mut Line, hold_through: bool) {
    let me = t.session.addr();
    match t.stage {
        Stage::Acquire => {
            if bus.try_acquire(me) {
                t.stage = Stage::Transmit;
            }
        }
        Stage::Transmit => {
            line.transmit(&t.tx);
            if !hold_through {
                bus.release(me);
            }
            t.stage = Stage::Receive;
        }
        Stage::Receive => {
            if !hold_through && !bus.try_acquire(me) {
                return;
            }
            if let Some(rx) = line.receive(t.rx_len) {
                bus.release(me);
                match t.session.resume(t.op, BusEvent::Received(rx)) {
                    (None, Action::ReadDone(r)) => t.result = Some(r),
                    _ => panic!("a read ends after one exchange"),
                }
                t.stage = Stage::Done;
            } else if !hold_through {
                bus.release(me);
            }
        }
        Stage::Done => {}
    }
}

/// Runs four sessions under a schedule drawn from `seed`; returns each
/// session's outcome, by driver address.
fn run(seed: u64, hold_through: bool) -> Vec<Result<[u8; 4], TMCError>> {
    let mut tasks: Vec<Task> = (0..4).map(task).collect();
    let mut bus = SharedBus::new();
    let mut line = Line { rx: VecDeque::new() };
    let mut state = seed;
    let mut steps = 0;
    while tasks.iter().any(|t| t.stage != Stage::Done) {
        state = state.wrapping_mul(6364136223846793005).wrapping_add(1442695040888963407);
        let i = ((state >> 33) % 4) as usize;
        advance(&mut tasks[i], &mut bus, &mut line, hold_through);
        steps += 1;
        assert!(steps < 100_000, "schedule did not finish");
    }
    tasks.into_iter().map(|t| t.result.unwrap()).collect()
}

#[test]
fn concurrent_reads_each_get_their_own_reply() {
    for seed in 0..500u64 {
        let results = run(seed, true);
        for (addr, r) in results.iter().enumerate() {
            let reg = [0x00, 0x01, 0x02, 0x06][addr];
            assert_eq!(*r, Ok([0, 0, addr as u8, reg]), "seed {}", seed);
        }
    }
}

#[test]
fn releasing_between_transmit_and_receive_misattributes() {
    let mut corrupted = 0;
    for seed in 0..500u64 {
        let results = run(seed, false);
        for (addr, r) in results.iter().enumerate() {
            let reg = [0x00, 0x01, 0x02, 0x06][addr];
            if *r != Ok([0, 0, addr as u8, reg]) {
                corrupted += 1;
            }
        }
    }
    assert!(corrupted > 0);
}

#[test]
fn bus_lock_is_exclusive() {
    let mut bus = SharedBus::new();
    assert_eq!(bus.holder(), None);
    assert!(bus.try_acquire(1));
    assert!(!bus.try_acquire(2));
    assert!(!bus.release(2));
    assert!(bus.is_held_by(1));
    assert!(!bus.is_held_by(2));
    assert!(bus.release(1));
    assert_eq!(bus.holder(), None);
    assert!(bus.try_acquire(2));
    assert_eq!(bus.holder(), Some(2));
}

#[test]
fn tasks_reply_register_matches_request() {
    let t = task(3);
    assert_eq!(t.reg, 0x06);
    assert_eq!(t.tx[2], 0x06);
}

#[test]
fn bus_reset_frees_abandoned_exchange() {
    let mut bus = SharedBus::new();
    assert!(bus.try_acquire(3));
    bus.reset();
    assert_eq!(bus.holder(), None);
    assert!(bus.try_acquire(0));
}
