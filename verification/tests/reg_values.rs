use drone_cortexm::reg::scb::{aircr_reset_request, ccr_thr_init, ScrVal};
use drone_cortexm::reg::stk::{CalibVal, CtrlVal, LoadVal, ValVal};

#[test]
fn scr_fields() {
    let scr = ScrVal(0);
    assert!(!scr.sleepdeep());
    let scr = scr.set_sleepdeep(true).set_seveonpend(true);
    assert_eq!(scr.0, 0b1_0100);
    assert!(scr.sleepdeep());
    assert!(scr.seveonpend());
    assert!(!scr.sleeponexit());
    let scr = scr.set_sleeponexit(true).set_sleepdeep(false);
    assert_eq!(scr.0, 0b1_0010);
}

#[test]
fn reset_request_and_ccr_values() {
    assert_eq!(aircr_reset_request(), 0x05FA_0004);
    assert_eq!(ccr_thr_init(), 0x0000_0201);
}

#[test]
fn systick_register_fields() {
    let ctrl = CtrlVal(0x0001_0000);
    assert!(ctrl.countflag());
    assert!(!ctrl.enable());
    let ctrl = ctrl.set_enable(true).set_tickint(true).set_clksource(true);
    assert_eq!(ctrl.0, 0x0001_0007);
    assert!(ctrl.tickint() && ctrl.clksource() && ctrl.enable());
    assert_eq!(LoadVal(0).set_reload(0x0100_0001).0, 1);
    assert_eq!(LoadVal(0x00FF_FFFF).reload(), 0x00FF_FFFF);
    assert_eq!(ValVal(0xFF00_0010).current(), 0x10);
    assert_eq!(ValVal(0xFFFF_FFFF).set_current(0).0, 0xFF00_0000);
    let calib = CalibVal(0xC000_2710);
    assert!(calib.noref());
    assert!(calib.skew());
    assert_eq!(calib.tenms(), 10_000);
}
