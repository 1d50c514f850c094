use drone_cortexm::thr::exec::ThrExec;
use drone_cortexm::thr::nvic::{
    IntLine, IntToken, Nvic, NvicBlock, NvicRegKind, ThrNvic, NVIC_ICER, NVIC_ISER,
};

#[test]
fn int_line_bounds() {
    assert!(IntLine::new(495).is_some());
    assert!(IntLine::new(496).is_none());
    assert_eq!(IntLine::new(37).unwrap().int_num(), 37);
}

#[test]
fn block_and_offset() {
    let l = IntLine::new(37).unwrap();
    assert_eq!(l.block_num(), 1);
    assert_eq!(l.block_offset(), 5);
    let l = IntLine::new(31).unwrap();
    assert_eq!(l.block_num(), 0);
    assert_eq!(l.block_offset(), 31);
}

#[test]
fn single_interrupt_stores() {
    let l = IntLine::new(37).unwrap();
    let en = l.enable_int();
    assert_eq!(en.kind, NvicRegKind::Iser);
    assert_eq!(en.block, 1);
    assert_eq!(en.inner, 1 << 5);
    assert_eq!(en.address(), NVIC_ISER + 4);
    let dis = l.disable_int();
    assert_eq!(dis.address(), NVIC_ICER + 4);
    assert_eq!(l.set_pending_int().kind, NvicRegKind::Ispr);
    assert_eq!(l.clear_pending_int().kind, NvicRegKind::Icpr);
    assert_eq!(l.priority_address(), 0xE000_E400 + 37);
}

#[test]
fn batch_of_interrupts() {
    let a = IntLine::new(32).unwrap();
    let b = IntLine::new(40).unwrap();
    let mut batch = a.batch(NvicRegKind::Iser);
    a.write(&mut batch);
    b.write(&mut batch);
    assert_eq!(batch.inner, 1 | 1 << 8);
    assert!(a.read(&batch));
    assert!(b.read(&batch));
    assert!(!IntLine::new(33).unwrap().read(&batch));
}

#[test]
fn nvic_model_enable_disable() {
    let mut nvic = Nvic::new();
    let a = IntLine::new(37).unwrap();
    let b = IntLine::new(38).unwrap();
    nvic.store(b.enable_int());
    nvic.store(a.enable_int());
    assert!(a.is_enabled(&nvic.load(NvicRegKind::Iser, 1)));
    assert!(b.is_enabled(&nvic.load(NvicRegKind::Iser, 1)));
    nvic.store(a.disable_int());
    assert!(!a.is_enabled(&nvic.load(NvicRegKind::Icer, 1)));
    assert!(b.is_enabled(&nvic.load(NvicRegKind::Iser, 1)));
    nvic.store(a.set_pending_int());
    assert!(a.is_pending(&nvic.load(NvicRegKind::Ispr, 1)));
    nvic.store(a.clear_pending_int());
    assert!(!a.is_pending(&nvic.load(NvicRegKind::Icpr, 1)));
    assert!(!a.is_active(&nvic.load(NvicRegKind::Iabr, 1)));
    nvic.set_priority(37, 0x80);
    assert_eq!(nvic.priority(37), 0x80);
    assert_eq!(nvic.priority(38), 0);
}

#[test]
fn software_trigger_pends_the_thread() {
    let mut nvic = Nvic::new();
    let a = IntLine::new(70).unwrap();
    let b = IntLine::new(71).unwrap();
    let (_, value) = a.trigger().wakeup();
    nvic.store_stir(value);
    assert!(a.is_pending(&nvic.load(NvicRegKind::Ispr, 2)));
    assert!(!b.is_pending(&nvic.load(NvicRegKind::Ispr, 2)));
    assert!(!a.is_enabled(&nvic.load(NvicRegKind::Iser, 2)));
}
