use embassy_tmc::crc::crc8_atm;
use embassy_tmc::datagram::{
    decode_reply, encode_read_request, encode_write_request, TMC2209RegisterDatagram,
    TMC2209RequestDatagram,
};
use embassy_tmc::error::TMCError;
use embassy_tmc::registers::{Datagram, Gconf, IHoldIRun, TMC2209Register};

fn with_crc(prefix: &[u8]) -> Vec<u8> {
    let mut v = prefix.to_vec();
    v.push(crc8_atm(prefix));
    v
}

fn good_gconf_reply() -> Vec<u8> {
    with_crc(&[0x05, 0xFF, 0x00, 0x00, 0x00, 0x00, 0x0C])
}

#[test]
fn gconf_read_request_for_driver_one() {
    let gconf = Gconf::default();
    let req = gconf.read_request(1).unwrap();
    assert_eq!(req, [0x05, 0x01, 0x00, 0xFE]);
    assert_eq!(crc8_atm(&[0x05, 0x01, 0x00]), 0xFE);
}

#[test]
fn read_request_rejects_bad_addresses() {
    for addr in [4u8, 5, 255] {
        assert_eq!(encode_read_request(addr, 0x00), Err(TMCError::InvalidDriverAddress(addr)));
        assert_eq!(Gconf::default().read_request(addr), Err(TMCError::InvalidDriverAddress(addr)));
        assert_eq!(
            Gconf::default().as_write_request(addr),
            Err(TMCError::InvalidDriverAddress(addr))
        );
    }
}

#[test]
fn read_request_accepts_valid_addresses() {
    for addr in 0u8..=3 {
        let req = encode_read_request(addr, 0x02).unwrap();
        assert_eq!(&req[..3], &[0x05, addr, 0x02]);
        assert_eq!(req[3], crc8_atm(&req[..3]));
        assert!(Gconf::default().as_write_request(addr).is_ok());
    }
}

#[test]
fn write_request_layout() {
    let reg = IHoldIRun { ihold: 16, irun: 31, ihold_delay: 1 };
    let req = reg.as_write_request(0).unwrap();
    assert_eq!(req, [0x05, 0x00, 0x90, 0x00, 0x01, 0x1F, 0x10, 0xDF]);
    let direct = encode_write_request(0, 0x90, [0x00, 0x01, 0x1F, 0x10]).unwrap();
    assert_eq!(direct, req);
}

#[test]
fn crc_round_trip_on_prefixes() {
    let read = with_crc(&[0x05, 0x02, 0x6C]);
    assert_eq!(read.len(), 4);
    assert_eq!(&read[..3], &[0x05, 0x02, 0x6C]);
    assert_eq!(read, encode_read_request(2, 0x6C).unwrap().to_vec());
    let reply = with_crc(&[0x05, 0xFF, 0x6C, 0x01, 0x02, 0x03, 0x04]);
    assert_eq!(decode_reply(&reply, 0x6C), Ok([0x01, 0x02, 0x03, 0x04]));
    let mut arr = [0u8; 8];
    arr.copy_from_slice(&reply);
    assert!(TMC2209RegisterDatagram::from_reply(arr).is_valid().is_ok());
}

#[test]
fn every_single_bit_flip_is_detected() {
    let good = good_gconf_reply();
    for i in 0..8 {
        for j in 0..8 {
            let mut bad = good.clone();
            bad[i] ^= 1 << j;
            assert_eq!(decode_reply(&bad, 0x00), Err(TMCError::CrcMismatch));
            let mut arr = [0u8; 8];
            arr.copy_from_slice(&bad);
            assert_eq!(
                TMC2209RegisterDatagram::from_reply(arr).is_valid(),
                Err(TMCError::CrcMismatch)
            );
        }
    }
    let req = encode_read_request(3, 0x06).unwrap();
    for i in 0..4 {
        for j in 0..8 {
            let mut bad = req;
            bad[i] ^= 1 << j;
            assert_ne!(crc8_atm(&bad[..3]), bad[3]);
        }
    }
}

#[test]
fn reply_rejection_length() {
    let good = good_gconf_reply();
    assert_eq!(decode_reply(&good[..7], 0x00), Err(TMCError::DatagramLength(7)));
    let mut long = good.clone();
    long.push(0);
    assert_eq!(decode_reply(&long, 0x00), Err(TMCError::DatagramLength(9)));
    assert_eq!(Gconf::from_datagram(&long), Err(TMCError::DatagramLength(9)));
}

#[test]
fn reply_rejection_sync_byte() {
    let bad = with_crc(&[0x04, 0xFF, 0x00, 0x00, 0x00, 0x00, 0x0C]);
    assert_eq!(decode_reply(&bad, 0x00), Err(TMCError::InvalidSyncByte(0x04)));
}

#[test]
fn reply_rejection_master_address() {
    let bad = with_crc(&[0x05, 0x01, 0x00, 0x00, 0x00, 0x00, 0x0C]);
    assert_eq!(decode_reply(&bad, 0x00), Err(TMCError::InvalidMasterAddress(0x01)));
}

#[test]
fn reply_rejection_register_address() {
    let bad = with_crc(&[0x05, 0xFF, 0x01, 0x00, 0x00, 0x00, 0x0C]);
    assert_eq!(decode_reply(&bad, 0x00), Err(TMCError::RegisterAddressMismatch(0x00, 0x01)));
    assert_eq!(
        Gconf::from_datagram(&good_gconf_reply()[..]).map(|g| g.shaft),
        Ok(true)
    );
    assert_eq!(
        Gconf::from_datagram(&bad),
        Err(TMCError::RegisterAddressMismatch(0x00, 0x01))
    );
}

#[test]
fn reply_rejection_crc() {
    let mut bad = good_gconf_reply();
    bad[7] ^= 0xFF;
    assert_eq!(decode_reply(&bad, 0x00), Err(TMCError::CrcMismatch));
}

#[test]
fn update_keeps_value_on_failure() {
    let mut g = Gconf { shaft: false, en_spreadcycle: true, ..Gconf::default() };
    let mut bad = good_gconf_reply();
    bad[7] ^= 1;
    assert_eq!(g.update(&bad), Err(TMCError::CrcMismatch));
    assert!(g.en_spreadcycle);
    assert_eq!(g.update(&good_gconf_reply()), Ok(()));
    assert!(g.shaft && g.en_spreadcycle && !g.i_scale_analog);
}

#[test]
fn request_and_register_datagrams() {
    let req = TMC2209RequestDatagram::new(0, TMC2209Register::GConf);
    assert_eq!(req.as_slice(), &[0x05, 0x00, 0x00, 0x48]);
    assert_eq!(req.crc(), 0x48);
    let w = TMC2209RegisterDatagram::new(0, TMC2209Register::IHoldIRun, [0x00, 0x01, 0x1F, 0x10]);
    assert_eq!(w.as_slice(), &[0x05, 0x00, 0x90, 0x00, 0x01, 0x1F, 0x10, 0xDF]);
    assert_eq!(w.crc(), 0xDF);
    assert_eq!(w.payload(), [0x00, 0x01, 0x1F, 0x10]);
    assert!(w.is_valid().is_ok());
}
