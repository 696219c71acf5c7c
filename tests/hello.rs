use embassy_tmc::crc::crc8_atm;

#[test]
fn test_hello() {
    assert!(true)
}

#[test]
fn crc_of_known_gconf_request() {
    assert_eq!(crc8_atm(&[0x05, 0x00, 0x00]), 0x48);
}
