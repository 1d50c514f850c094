use drone_cortexm::peripherals::dma::{clears_flags, dma_step, dx_transfer_result, DmaStep};
use drone_cortexm::peripherals::exti::exti_step;
use drone_cortexm::peripherals::timer::{StkWrite, SysTick, TimerOverflow};
use drone_cortexm::processor::{fpu_cpacr_value, mem_init_words};
use drone_cortexm::reg::stk::{CtrlVal, LoadVal, ValVal};
use drone_cortexm::sv::{
    frame_stack, handler_entry_address, service_handler, service_location, service_pointer,
    stacked_pc_address, sv_call_args, svc_immediate_address, ExceptionFrame, FrameStack,
    ServiceLocation, SvCallArgs, Switch, SwitchBackService, SwitchContextService,
};
use drone_cortexm::swo::{
    flush_spin_cycles, flush_step, is_busy, is_enabled, is_port_enabled, prescaler_value, FlushStep,
};

#[test]
fn systick_sleep_and_interval() {
    let ctrl = CtrlVal(0b100); // processor clock source
    let (writes, done) = SysTick::sleep(1000, ctrl);
    assert_eq!(
        writes,
        vec![
            StkWrite::Ctrl(CtrlVal(0b100)),
            StkWrite::Load(LoadVal(1000)),
            StkWrite::Val(ValVal(0)),
            StkWrite::Ctrl(CtrlVal(0b111)),
        ]
    );
    assert_eq!(done, CtrlVal(0b100));
    // A running timer is stopped before it is rescheduled.
    let writes = SysTick::interval(0x0100_0005, CtrlVal(0b111));
    assert_eq!(writes[0], StkWrite::Ctrl(CtrlVal(0b100)));
    assert_eq!(writes[1], StkWrite::Load(LoadVal(5)));
    assert_eq!(writes[3], StkWrite::Ctrl(CtrlVal(0b111)));
    assert_eq!(SysTick::stop(CtrlVal(0x0001_0007)), CtrlVal(0x0001_0004));
    assert_eq!(TimerOverflow, TimerOverflow);
}

#[test]
fn supervisor_dispatch() {
    assert_eq!(frame_stack(0xFFFF_FFF9), FrameStack::Main);
    assert_eq!(frame_stack(0xFFFF_FFFD), FrameStack::Process);
    assert_eq!(stacked_pc_address(0x2000_0100), 0x2000_0118);
    assert_eq!(svc_immediate_address(0x0800_0102), 0x0800_0100);
    assert_eq!(handler_entry_address(0x0800_4000, 3), 0x0800_400C);
    assert_eq!(sv_call_args::<SwitchBackService>(0x2000_0040, 1), SvCallArgs::NumAndR12(1, 0x2000_0040));
    assert_eq!(service_location::<SwitchContextService>(0x2000_0100), ServiceLocation::StackedR12(0x2000_0110));
}

struct Nothing;
impl drone_cortexm::sv::SvService for Nothing {}

#[test]
fn zero_sized_service() {
    assert_eq!(sv_call_args::<Nothing>(0x2000_0040, 7), SvCallArgs::Num(7));
    assert_eq!(service_location::<Nothing>(0x2000_0100), ServiceLocation::ZeroSized);
}

#[test]
fn switch_back_copy_plan() {
    let plan = SwitchBackService { data_ptr: 0, data_size: 11 }.copy_plan();
    assert_eq!(plan.word_bytes, 8);
    assert!(plan.halfword);
    assert!(plan.byte);
    let plan = SwitchBackService { data_ptr: 0, data_size: 4 }.copy_plan();
    assert_eq!((plan.word_bytes, plan.halfword, plan.byte), (4, false, false));
    let plan = SwitchBackService { data_ptr: 0, data_size: 1 }.copy_plan();
    assert_eq!((plan.word_bytes, plan.halfword, plan.byte), (0, false, true));
}

#[test]
fn swo_values() {
    assert!(is_enabled(0x0001_0001));
    assert!(!is_enabled(0x0001_0000));
    assert!(is_port_enabled(0x8000_0000, 31));
    assert!(!is_port_enabled(0x8000_0000, 0));
    assert!(is_busy(1 << 23));
    assert_eq!(flush_spin_cycles(0xFFFF_0003), 192);
    // 72 MHz processor, 115200 baud.
    assert_eq!(prescaler_value(72_000_000 / 115_200 - 1), 624);
}

#[test]
fn processor_values() {
    assert_eq!(fpu_cpacr_value(true), 0x00F0_0000);
    assert_eq!(fpu_cpacr_value(false), 0x0050_0000);
    assert_eq!(mem_init_words(0x2000_0000, 0x2000_0010), 4);
    assert_eq!(mem_init_words(0x2000_0000, 0x2000_0011), 5);
    assert_eq!(mem_init_words(0x2000_0010, 0x2000_0010), 0);
}

#[test]
fn dma_and_exti_steps() {
    assert_eq!(dma_step(false, false), DmaStep::Pending);
    assert_eq!(dma_step(false, true), DmaStep::Complete);
    assert_eq!(dma_step(true, true), DmaStep::Error);
    assert!(!clears_flags(DmaStep::Pending));
    assert!(clears_flags(DmaStep::Error));
    assert!(dx_transfer_result(true, true));
    assert!(!dx_transfer_result(true, false));
    assert!(exti_step(true).clear_pending);
    assert!(!exti_step(false).event);
}

fn stacked_frame() -> ExceptionFrame {
    ExceptionFrame {
        r0: 0x10,
        r1: 0x11,
        r2: 0x12,
        r3: 0x13,
        r12: 0x2000_0400,
        lr: 0xFFFF_FFFD,
        pc: 0x0800_0102,
        xpsr: 0x0100_0000,
    }
}

#[test]
fn exception_frame_words() {
    let frame = stacked_frame();
    assert_eq!(frame.word_at(0), Some(0x10));
    assert_eq!(frame.word_at(16), Some(0x2000_0400));
    assert_eq!(frame.word_at(24), Some(0x0800_0102));
    assert_eq!(frame.word_at(28), Some(0x0100_0000));
    assert_eq!(frame.word_at(2), None);
    assert_eq!(frame.word_at(32), None);
}

#[test]
fn service_pointer_reads_stacked_r12() {
    let frame = stacked_frame();
    assert_eq!(service_pointer::<SwitchBackService>(0x2000_0100, &frame), 0x2000_0400);
    assert_eq!(service_pointer::<Nothing>(0x2000_0100, &frame), 0x2000_0100);
}

#[test]
fn service_handler_calls_handler_once_on_the_service() {
    // The service address that the supervisor call put in R12 comes back to
    // the handler.
    let service = 0x2000_0400usize;
    assert_eq!(sv_call_args::<SwitchContextService>(service, 2), SvCallArgs::NumAndR12(2, service));
    let frame = stacked_frame();
    let mut calls = Vec::new();
    service_handler::<SwitchContextService, _>(0x2000_0100, &frame, |p| calls.push(p));
    assert_eq!(calls, vec![service]);
    let mut calls = Vec::new();
    service_handler::<Nothing, _>(0x2000_0100, &frame, |p| calls.push(p));
    assert_eq!(calls, vec![0x2000_0100]);
}

struct Sv;

impl drone_cortexm::sv::Supervisor for Sv {
    fn first() -> usize {
        0x0800_1000
    }
}

impl drone_cortexm::sv::SvCall<SwitchContextService> for Sv {
    fn service_num() -> u8 {
        0
    }
}

impl drone_cortexm::sv::SvCall<SwitchBackService> for Sv {
    fn service_num() -> u8 {
        1
    }
}

#[test]
fn switch_services_of_any_supervisor() {
    let context = <Sv as Switch<u64>>::switch_context(0x2000_0010, 0x2000_0020);
    assert_eq!(context, SwitchContextService { stack_ptr: 0x2000_0020, data_ptr: 0x2000_0010 });
    let back = <Sv as Switch<u64>>::switch_back(0x2000_0030);
    assert_eq!(back, SwitchBackService { data_ptr: 0x2000_0030, data_size: 8 });
}

#[test]
fn flush_steps() {
    // No probe listening on the first read: nothing to flush.
    assert_eq!(flush_step(false, 0), FlushStep::Skip);
    // Enabled and busy: wait.
    assert_eq!(flush_step(false, (1 << 23) | 1), FlushStep::Wait);
    // Enabled and idle: spin.
    assert_eq!(flush_step(false, 1), FlushStep::Spin);
    // Later reads do not check ITMENA again.
    assert_eq!(flush_step(true, 1 << 23), FlushStep::Wait);
    assert_eq!(flush_step(true, 0), FlushStep::Spin);
}
