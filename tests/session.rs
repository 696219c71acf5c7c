use embassy_tmc::crc::crc8_atm;
use embassy_tmc::error::TMCError;
use embassy_tmc::registers::{Datagram, Gconf, IHoldIRun};
use embassy_tmc::session::{
    ifcnt_advanced, verify_write, Action, BusEvent, Direction, Operation, TMC2209, READ_RX_LEN,
    WRITE_RX_LEN,
};

fn reply(reg: u8, payload: [u8; 4]) -> Vec<u8> {
    let mut v = vec![0x05, 0xFF, reg, payload[0], payload[1], payload[2], payload[3]];
    let c = crc8_atm(&v);
    v.push(c);
    v
}

fn exchange(a: Action) -> (Vec<u8>, usize) {
    match a {
        Action::Exchange { tx, rx_len } => (tx, rx_len),
        _ => panic!("expected an exchange"),
    }
}

#[test]
fn write_verification_arithmetic() {
    assert_eq!(verify_write(5, 6), Ok(()));
    assert_eq!(verify_write(255, 0), Ok(()));
    assert_eq!(verify_write(6, 5), Err(TMCError::WriteVerificationFailed(6, 5)));
    assert_eq!(verify_write(5, 5), Err(TMCError::WriteVerificationFailed(5, 5)));
    assert_eq!(verify_write(255, 1), Err(TMCError::WriteVerificationFailed(255, 1)));
    assert!(ifcnt_advanced(0, 200));
    assert!(!ifcnt_advanced(254, 0));
}

#[test]
fn session_rejects_bad_address() {
    assert!(matches!(TMC2209::new(4), Err(TMCError::InvalidDriverAddress(4))));
    assert!(matches!(TMC2209::new(255), Err(TMCError::InvalidDriverAddress(255))));
    assert_eq!(TMC2209::new(3).unwrap().addr(), 3);
}

#[test]
fn gpio_levels() {
    let mut s = TMC2209::new(0).unwrap();
    assert!(s.en_level());
    s.enable();
    assert!(!s.en_level());
    s.enable();
    assert!(!s.en_level());
    s.disable();
    assert!(s.en_level());
    assert!(!s.step_level());
    s.step();
    assert!(s.step_level());
    s.step();
    assert!(!s.step_level());
    s.set_direction(Direction::Clockwise);
    assert!(s.dir_level());
    assert_eq!(s.get_direction(), Direction::Clockwise);
    s.set_direction(Direction::CounterClockwise);
    assert!(!s.dir_level());
    assert_eq!(s.get_direction(), Direction::CounterClockwise);
}

#[test]
fn read_flow() {
    let s = TMC2209::new(1).unwrap();
    let (op, act) = s.read_register::<Gconf>();
    let (tx, rx_len) = exchange(act);
    assert_eq!(tx, vec![0x05, 0x01, 0x00, 0xFE]);
    assert_eq!(rx_len, READ_RX_LEN);
    let mut rx = tx.clone();
    rx.extend(reply(0x00, [0, 0, 0, 0x08]));
    let (next, done) = s.resume(op, BusEvent::Received(rx));
    assert!(next.is_none());
    match done {
        Action::ReadDone(Ok(p)) => {
            assert_eq!(p, [0, 0, 0, 0x08]);
            let g = Gconf::from_word(u32::from_be_bytes(p));
            assert!(g.shaft);
        }
        _ => panic!("expected a finished read"),
    }
}

#[test]
fn read_flow_timeout_and_io_error() {
    let s = TMC2209::new(0).unwrap();
    let (op, _) = s.read_register::<Gconf>();
    assert!(matches!(s.resume(op, BusEvent::TimedOut), (None, Action::ReadDone(Err(TMCError::Timeout)))));
    assert!(matches!(s.resume(op, BusEvent::IoFailed), (None, Action::ReadDone(Err(TMCError::IoError)))));
    let (wop, _) = s.write_register(&Gconf::default());
    assert!(matches!(s.resume(wop, BusEvent::TimedOut), (None, Action::WriteDone(Err(TMCError::Timeout)))));
}

#[test]
fn read_flow_short_reply() {
    let s = TMC2209::new(0).unwrap();
    let (op, _) = s.read_register::<Gconf>();
    let r = s.resume(op, BusEvent::Received(vec![0x05, 0x00, 0x00]));
    assert!(matches!(r, (None, Action::ReadDone(Err(TMCError::DatagramLength(0))))));
}

fn write_flow(before: u8, after: u8) -> Result<(), TMCError> {
    let s = TMC2209::new(2).unwrap();
    let value = IHoldIRun { ihold: 16, irun: 31, ihold_delay: 1 };
    let (op, act) = s.write_register(&value);
    assert!(matches!(op, Operation::CountingBeforeWrite { waddr: 0x90, .. }));
    let (tx, rx_len) = exchange(act);
    assert_eq!(tx, Gconf::default().read_request(2).map(|_| vec![0x05, 0x02, 0x02, crc8_atm(&[0x05, 0x02, 0x02])]).unwrap());
    assert_eq!(rx_len, READ_RX_LEN);
    let mut rx = tx.clone();
    rx.extend(reply(0x02, [0, 0, 0, before]));
    let (next, act) = s.resume(op, BusEvent::Received(rx));
    let op = next.unwrap();
    let (tx, rx_len) = exchange(act);
    assert_eq!(rx_len, WRITE_RX_LEN);
    assert_eq!(tx.len(), 12);
    assert_eq!(&tx[..8], &value.as_write_request(2).unwrap());
    assert_eq!(&tx[8..], &[0x05, 0x02, 0x02, crc8_atm(&[0x05, 0x02, 0x02])]);
    let mut rx = tx.clone();
    rx.extend(reply(0x02, [0, 0, 0, after]));
    match s.resume(op, BusEvent::Received(rx)) {
        (None, Action::WriteDone(r)) => r,
        _ => panic!("expected a finished write"),
    }
}

#[test]
fn write_flow_outcomes() {
    assert_eq!(write_flow(5, 6), Ok(()));
    assert_eq!(write_flow(255, 0), Ok(()));
    assert_eq!(write_flow(5, 5), Err(TMCError::WriteVerificationFailed(5, 5)));
    assert_eq!(write_flow(255, 1), Err(TMCError::WriteVerificationFailed(255, 1)));
}

#[test]
fn write_flow_bad_counter_reply() {
    let s = TMC2209::new(0).unwrap();
    let (op, act) = s.write_register(&Gconf::default());
    let (tx, _) = exchange(act);
    let mut rx = tx.clone();
    let mut r = reply(0x02, [0, 0, 0, 9]);
    r[7] ^= 0x01;
    rx.extend(r);
    assert!(matches!(s.resume(op, BusEvent::Received(rx)), (None, Action::WriteDone(Err(TMCError::CrcMismatch)))));
}
