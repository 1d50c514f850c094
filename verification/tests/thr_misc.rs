use drone_cortexm::thr::exec::{exec_step, ExecOutput, FiberStep, Termination, ThrExec};
use drone_cortexm::thr::init::{init, init_extended, mpu_reset, mpu_reset_table, rbar_reset};
use drone_cortexm::thr::nvic::IntLine;
use drone_cortexm::thr::trunk::{
    future_wait_step, stream_wait_step, trunk_wait_step, StreamTrunkWait, WaitStep,
};
use drone_cortexm::thr::vtable::{Reserved, Reset};
use drone_cortexm::thr::wake::{Core, WakeInt, WakeRoot, WakeTrunk, NVIC_STIR};

#[test]
fn wake_int_round_trip() {
    let w = WakeInt::new(42);
    assert_eq!(w.int_num(), 42);
    assert_eq!(w.wakeup(), (NVIC_STIR, 42));
    assert_eq!(w.to_raw_data(), 42);
    assert_eq!(WakeInt::from_raw_data(w.to_raw_data()), w);
    assert_eq!(WakeInt::from_raw_data(0x1_0005).int_num(), 5);
}

#[test]
fn wake_root_sends_event_only_on_old_m3() {
    let root = WakeRoot::new();
    assert!(root.wake_sends_event(Core::CortexM3R0p0));
    assert!(root.wake_sends_event(Core::CortexM3R2p0));
    assert!(!root.wake_sends_event(Core::CortexM3R2p1));
    assert!(!root.wake_sends_event(Core::CortexM4fR0p1));
    assert!(!root.wake_sends_event(Core::CortexM33R0p4));
    let _trunk = WakeTrunk::new();
}

#[test]
fn exec_outputs() {
    assert_eq!(().terminate(), Termination::Finished);
    assert_eq!(Ok::<(), &str>(()).terminate(), Termination::Finished);
    assert_eq!(Err::<(), &str>("boom").terminate(), Termination::Failed);
    assert_eq!(exec_step::<()>(None), FiberStep::Yielded);
    assert_eq!(exec_step(Some(())), FiberStep::Complete(Termination::Finished));
    assert_eq!(exec_step(Some(Err::<(), u8>(1))), FiberStep::Complete(Termination::Failed));
}

#[test]
fn exec_trigger_wakes_own_interrupt() {
    let t = IntLine::new(17).unwrap();
    assert_eq!(t.trigger().int_num(), 17);
}

#[test]
fn trunk_wait_steps() {
    assert_eq!(trunk_wait_step::<u8>(None), WaitStep::Wait);
    assert_eq!(trunk_wait_step(Some(3)), WaitStep::Return(3));
    assert_eq!(future_wait_step::<u8, ()>(Ok(None)), WaitStep::Wait);
    assert_eq!(future_wait_step::<u8, ()>(Ok(Some(1))), WaitStep::Return(Ok(1)));
    assert_eq!(future_wait_step::<u8, u8>(Err(2)), WaitStep::Return(Err(2)));
    assert_eq!(stream_wait_step::<u8, ()>(Ok(None)), WaitStep::Wait);
    assert_eq!(stream_wait_step::<u8, ()>(Ok(Some(Some(4)))), WaitStep::Return(Some(Ok(4))));
    assert_eq!(stream_wait_step::<u8, ()>(Ok(Some(None))), WaitStep::Return(None));
    assert_eq!(stream_wait_step::<u8, u8>(Err(9)), WaitStep::Return(Some(Err(9))));
}

#[test]
fn stream_trunk_wait_is_fused() {
    let mut it = StreamTrunkWait::new();
    assert!(it.poll_needed());
    assert_eq!(it.next_step::<u8>(None), WaitStep::Wait);
    assert_eq!(it.next_step(Some(Some(7))), WaitStep::Return(Some(7)));
    assert_eq!(it.next_step::<u8>(Some(None)), WaitStep::Return(None));
    assert!(!it.poll_needed());
    // Whatever a poll would say, the ended stream yields nothing more.
    assert_eq!(it.next_step(Some(Some(8))), WaitStep::Return(None));
}

#[test]
fn thread_init_values() {
    let (ccr, tokens) = init_extended();
    assert_eq!(ccr, 0x0000_0201);
    assert_eq!(tokens.scb_ccr_div_0_trp.get_offset(), 4);
    assert_eq!(tokens.scb_ccr_div_0_trp.get_reg().get_address(), 0xE000_ED14);
    assert_eq!(tokens.scb_ccr_bfhfnmign.get_offset(), 8);
    assert_eq!(tokens.scb_ccr_unalign_trp.get_offset(), 3);
    assert_eq!(tokens.scb_ccr_usersetmpend.get_offset(), 1);
}

#[test]
fn mpu_reset_values() {
    assert_eq!(rbar_reset(0), 0x10);
    assert_eq!(rbar_reset(7), 0x17);
    assert_eq!(rbar_reset(0x13), 0x13);
    let table = mpu_reset_table();
    assert_eq!(
        table,
        vec![0x10, 0, 0x11, 0, 0x12, 0, 0x13, 0, 0x14, 0, 0x15, 0, 0x16, 0, 0x17, 0]
    );
    assert_eq!(mpu_reset(0x0000_0000), None);
    let writes = mpu_reset(0x0000_0800).unwrap();
    assert_eq!(writes.len(), 17);
    assert_eq!(writes[0], (0xE000_ED94, 0));
    for i in 0..16 {
        assert_eq!(writes[i + 1], (0xE000_ED9C + 4 * (i % 8), table[i]));
    }
    assert_eq!(writes[8], (0xE000_EDB8, 0));
    assert_eq!(writes[9], (0xE000_ED9C, 0x14));
}

#[test]
fn vector_table_items() {
    assert_eq!(Reserved::Vector.word(), 0);
    assert_eq!(Reset.thr_num(), 0);
}

#[test]
fn thread_init_stores_ccr() {
    let (ccr, _) = init_extended();
    assert_eq!(init(), ccr);
    assert_eq!(init(), 0x0000_0201);
}
