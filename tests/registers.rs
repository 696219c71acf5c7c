use embassy_tmc::error::TMCError;
use embassy_tmc::registers::{
    payload_from_word, word_from_payload, ChopConf, Datagram, GStat, Gconf, IHoldIRun, IfCnt, Ioin,
    NodeConf, PwmConf, TCoolThrs, TMC2209Register, TPowerDown, TStep, TpwmThrs, VActual,
};

#[test]
fn write_address_is_read_address_plus_offset() {
    let all = [
        TMC2209Register::GConf,
        TMC2209Register::GStat,
        TMC2209Register::IfCnt,
        TMC2209Register::NodeConf,
        TMC2209Register::Ioin,
        TMC2209Register::IHoldIRun,
        TMC2209Register::TPowerDown,
        TMC2209Register::TStep,
        TMC2209Register::TpwmThrs,
        TMC2209Register::TCoolThrs,
        TMC2209Register::VActual,
        TMC2209Register::ChopConf,
        TMC2209Register::PwmConf,
    ];
    for r in all {
        assert_eq!(r.write_value() as u16, r.read_value() as u16 + 0x80);
    }
    assert_eq!(TMC2209Register::ChopConf.read_value(), 0x6C);
    assert_eq!(TMC2209Register::ChopConf.write_value(), 0xEC);
    let pairs = [
        (Gconf::read_reg_addr(), Gconf::write_reg_addr()),
        (GStat::read_reg_addr(), GStat::write_reg_addr()),
        (IfCnt::read_reg_addr(), IfCnt::write_reg_addr()),
        (NodeConf::read_reg_addr(), NodeConf::write_reg_addr()),
        (Ioin::read_reg_addr(), Ioin::write_reg_addr()),
        (IHoldIRun::read_reg_addr(), IHoldIRun::write_reg_addr()),
        (TPowerDown::read_reg_addr(), TPowerDown::write_reg_addr()),
        (TStep::read_reg_addr(), TStep::write_reg_addr()),
        (TpwmThrs::read_reg_addr(), TpwmThrs::write_reg_addr()),
        (TCoolThrs::read_reg_addr(), TCoolThrs::write_reg_addr()),
        (VActual::read_reg_addr(), VActual::write_reg_addr()),
        (ChopConf::read_reg_addr(), ChopConf::write_reg_addr()),
        (PwmConf::read_reg_addr(), PwmConf::write_reg_addr()),
    ];
    let expected = [0x00, 0x01, 0x02, 0x03, 0x06, 0x10, 0x11, 0x12, 0x13, 0x14, 0x22, 0x6C, 0x70];
    for (i, (r, w)) in pairs.iter().enumerate() {
        assert_eq!(*r, expected[i]);
        assert_eq!(*w as u16, *r as u16 + 0x80);
    }
}

#[test]
fn payload_word_is_big_endian() {
    assert_eq!(payload_from_word(0x0102_0304), [1, 2, 3, 4]);
    assert_eq!(word_from_payload([0xAA, 0xBB, 0xCC, 0xDD]), 0xAABB_CCDD);
}

#[test]
fn ihold_irun_layout() {
    let v = IHoldIRun { ihold: 16, irun: 31, ihold_delay: 1 };
    assert_eq!(v.to_word(), 0x0001_1F10);
    assert_eq!(IHoldIRun::from_word(0x0001_1F10), v);
}

#[test]
fn chopconf_layout() {
    let v = ChopConf {
        toff: 3,
        hstrt: 5,
        hend: 2,
        tbl: 2,
        vsense: true,
        mres: 4,
        intpol: true,
        dedge: false,
        diss2g: false,
        diss2vs: true,
    };
    let w = (3 << 0) | (5 << 4) | (2 << 8) | (2 << 15) | (1 << 17) | (4 << 24) | (1 << 28) | (1 << 31);
    assert_eq!(v.to_word(), w);
    assert_eq!(ChopConf::from_word(w), v);
}

#[test]
fn ioin_layout_and_reserved_bits() {
    let io = Ioin::from_word(0x2100_0301);
    assert!(io.enn && !io.ms1 && io.spread_en && io.dir && !io.diag);
    assert_eq!(io.zero1, 0);
    assert_eq!(io.zero2, 0);
    assert_eq!(io.version, 0x21);
    let odd = Ioin::from_word(0x0000_0022);
    assert_eq!(odd.zero1, 1);
    assert_eq!(odd.zero2, 1);
}

#[test]
fn gconf_gstat_ifcnt_nodeconf_layout() {
    let g = Gconf::from_word(0x0000_03C8);
    assert!(g.shaft && g.pdn_disable && g.mstep_reg_select && g.multistep_filt && g.test_mode);
    assert!(!g.i_scale_analog && !g.en_spreadcycle);
    assert_eq!(g.to_word(), 0x0000_03C8);
    let s = GStat::from_word(0b101);
    assert!(s.reset && !s.drv_err && s.uv_cp);
    assert_eq!(IfCnt::from_word(0x1234_56FE).cnt, 0xFE);
    assert_eq!(IfCnt { cnt: 7 }.to_word(), 7);
    assert_eq!(NodeConf { send_delay: 0x5 }.to_word(), 0x0500);
    assert_eq!(NodeConf::from_word(0x0F00).send_delay, 0xF);
}

#[test]
fn threshold_and_velocity_layout() {
    assert_eq!(TPowerDown { tpower_down: 20 }.to_word(), 20);
    assert_eq!(TStep::from_word(0xFFF0_0001).tstep, 0x0_0001);
    assert_eq!(TpwmThrs { tpwm_thrs: 0xF_FFFF }.to_word(), 0xF_FFFF);
    assert_eq!(TCoolThrs::new(0x12_3456).to_word(), 0x02_3456);
    assert_eq!(VActual::new(-1).to_word(), 0x00FF_FFFF);
    assert_eq!(VActual::from_word(0x00FF_FFFF).vactual, -1);
    assert_eq!(VActual::from_word(0x0080_0000).vactual, -(1 << 23));
    assert_eq!(VActual::from_word(0x007F_FFFF).vactual, (1 << 23) - 1);
    assert_eq!(VActual::new(1000).to_word(), 1000);
}

#[test]
fn pwmconf_layout() {
    let p = PwmConf {
        pwm_ofs: 36,
        pwm_grad: 14,
        pwm_freq: 1,
        pwm_autoscale: true,
        pwm_autograd: true,
        freewheel0: false,
        freewheel1: false,
        pwm_reg: 8,
        pwm_ilm: 12,
    };
    assert_eq!(p.to_word(), 0xC80D_0E24);
    assert_eq!(PwmConf::from_word(0xC80D_0E24), p);
}

#[test]
fn ioin_reserved_bits_check() {
    assert_eq!(Ioin::from_word(0x2100_0301).check_reserved(), Ok(()));
    assert_eq!(Ioin::from_word(0x2100_0002).check_reserved(), Err(TMCError::UnpackingError));
    assert_eq!(Ioin::from_word(0x2100_0020).check_reserved(), Err(TMCError::UnpackingError));
}
