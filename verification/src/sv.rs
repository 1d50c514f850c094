//! The supervisor: supervisor calls (`SVC num`) and their dispatch to the
//! supervisor services.
//!
//! A supervisor call passes the service number in the `SVC` instruction and,
//! for a service that carries data, the address of the service in `R12`. The
//! `SV_CALL` handler finds the exception frame on the main or the process
//! stack, reads the `SVC` instruction before the stacked return address, and
//! jumps to the entry of that number in the services array.

use vstd::layout::size_of;
use vstd::prelude::*;

verus! {

/// A supervisor: the array of its service handlers.
pub trait Supervisor: Sized {
    /// Returns the address of the first entry of the services array.
    fn first() -> usize;
}

/// A supervisor service.
pub trait SvService: Sized {}

/// A supervisor call of the service `T`.
pub trait SvCall<T: SvService>: Supervisor {
    /// Returns the number of the service `T`, the immediate of its `SVC`
    /// instruction.
    fn service_num() -> u8;
}

/// How `SVC num` is issued for a service.
#[derive(Debug, Clone, Copy, PartialEq, Eq, Structural)]
pub enum SvCallArgs {
    /// The service carries no data: only the number is passed.
    Num(u8),
    /// The service carries data: the number is passed, and the address of
    /// the service in `R12`.
    NumAndR12(u8, usize),
}

/// How the supervisor call `num` is issued for the service `T` at
/// `service`: a zero-sized service passes no address.
pub open spec fn spec_sv_call_args<T: SvService>(service: usize, num: u8) -> SvCallArgs {
    if size_of::<T>() == 0 {
        SvCallArgs::Num(num)
    } else {
        SvCallArgs::NumAndR12(num, service)
    }
}

/// Returns how to issue the supervisor call `num` for the service at
/// `service`: a zero-sized service passes no address.
pub fn sv_call_args<T: SvService>(service: usize, num: u8) -> (r: SvCallArgs)
    ensures
        r == spec_sv_call_args::<T>(service, num),
{
    if core::mem::size_of::<T>() == 0 {
        SvCallArgs::Num(num)
    } else {
        SvCallArgs::NumAndR12(num, service)
    }
}

/// The stack that holds an exception frame.
#[derive(Debug, Clone, Copy, PartialEq, Eq, Structural)]
pub enum FrameStack {
    /// The main stack (`MSP`).
    Main,
    /// The process stack (`PSP`).
    Process,
}

/// Returns the stack of the exception frame from the `EXC_RETURN` value in
/// `LR`: bit 2 clear means the main stack.
pub fn frame_stack(exc_return: u32) -> (r: FrameStack)
    ensures
        r == if exc_return & 4 == 0 {
            FrameStack::Main
        } else {
            FrameStack::Process
        },
{
    if exc_return & 4 == 0 {
        FrameStack::Main
    } else {
        FrameStack::Process
    }
}

/// The address of the stacked return address in the exception frame at
/// `frame` (the seventh word: R0-R3, R12, LR, then PC).
pub open spec fn spec_stacked_pc(frame: int) -> int {
    frame + 24
}

/// Returns the address of the stacked return address of the exception frame
/// at `frame`.
pub fn stacked_pc_address(frame: usize) -> (r: usize)
    requires
        frame + 24 <= usize::MAX,
    ensures
        r == spec_stacked_pc(frame as int),
        r == frame + 24,
{
    frame + 24
}

/// Returns the address of the immediate byte of the `SVC` instruction that
/// returns to `pc`: the first byte of the halfword before it.
pub fn svc_immediate_address(pc: usize) -> (r: usize)
    requires
        pc >= 2,
    ensures
        r == pc - 2,
{
    pc - 2
}

/// Returns the address of the handler entry of service `num` in the
/// services array that starts at `first`, one word per service.
pub fn handler_entry_address(first: usize, num: u8) -> (r: usize)
    requires
        first + 4 * 255 <= usize::MAX,
    ensures
        r == first + 4 * num,
{
    first + 4 * (num as usize)
}

/// Where the service handler finds its service.
#[derive(Debug, Clone, Copy, PartialEq, Eq, Structural)]
pub enum ServiceLocation {
    /// The service is zero-sized: any address stands for it.
    ZeroSized,
    /// The address of the service is the word stored at this address (the
    /// stacked `R12`).
    StackedR12(usize),
}

/// Where the handler of service `T` finds the service from the exception
/// frame at `frame`: nowhere for a zero-sized service, the stacked `R12`
/// (the fifth word, after `R0`-`R3`) otherwise.
pub open spec fn spec_service_location<T: SvService>(frame: usize) -> ServiceLocation {
    if size_of::<T>() == 0 {
        ServiceLocation::ZeroSized
    } else {
        ServiceLocation::StackedR12((frame + 16) as usize)
    }
}

/// Returns where the handler of service `T` finds the service from the
/// exception frame at `frame`.
pub fn service_location<T: SvService>(frame: usize) -> (r: ServiceLocation)
    requires
        frame + 16 <= usize::MAX,
    ensures
        r == spec_service_location::<T>(frame),
{
    if core::mem::size_of::<T>() == 0 {
        ServiceLocation::ZeroSized
    } else {
        ServiceLocation::StackedR12(frame + 16)
    }
}

/// The exception frame that the processor stacks on exception entry, one
/// word per register, from the lowest address.
#[derive(Debug, Clone, Copy, PartialEq, Eq, Structural)]
pub struct ExceptionFrame {
    /// Stacked `R0`.
    pub r0: usize,
    /// Stacked `R1`.
    pub r1: usize,
    /// Stacked `R2`.
    pub r2: usize,
    /// Stacked `R3`.
    pub r3: usize,
    /// Stacked `R12`.
    pub r12: usize,
    /// Stacked `LR`.
    pub lr: usize,
    /// Stacked return address.
    pub pc: usize,
    /// Stacked `xPSR`.
    pub xpsr: usize,
}

/// The word at byte `offset` of the exception frame, if a word starts
/// there.
pub open spec fn spec_frame_word(frame: ExceptionFrame, offset: int) -> Option<usize> {
    if offset == 0 {
        Some(frame.r0)
    } else if offset == 4 {
        Some(frame.r1)
    } else if offset == 8 {
        Some(frame.r2)
    } else if offset == 12 {
        Some(frame.r3)
    } else if offset == 16 {
        Some(frame.r12)
    } else if offset == 20 {
        Some(frame.lr)
    } else if offset == 24 {
        Some(frame.pc)
    } else if offset == 28 {
        Some(frame.xpsr)
    } else {
        None
    }
}

impl ExceptionFrame {
    /// Returns the word at byte `offset` of the frame, if a word starts
    /// there.
    pub fn word_at(&self, offset: usize) -> (r: Option<usize>)
        ensures
            r == spec_frame_word(*self, offset as int),
    {
        if offset == 0 {
            Some(self.r0)
        } else if offset == 4 {
            Some(self.r1)
        } else if offset == 8 {
            Some(self.r2)
        } else if offset == 12 {
            Some(self.r3)
        } else if offset == 16 {
            Some(self.r12)
        } else if offset == 20 {
            Some(self.lr)
        } else if offset == 24 {
            Some(self.pc)
        } else if offset == 28 {
            Some(self.xpsr)
        } else {
            None
        }
    }
}

/// The address the handler of service `T` is called on, from the exception
/// frame `frame` stacked at `frame_addr`: the frame address itself for a
/// zero-sized service, the word at the service location otherwise.
pub open spec fn spec_service_pointer<T: SvService>(frame_addr: usize, frame: ExceptionFrame) -> usize {
    match spec_service_location::<T>(frame_addr) {
        ServiceLocation::ZeroSized => frame_addr,
        ServiceLocation::StackedR12(a) => spec_frame_word(frame, a - frame_addr)->Some_0,
    }
}

/// Returns the address the handler of service `T` is called on, from the
/// exception frame `frame` stacked at `frame_addr`.
pub fn service_pointer<T: SvService>(frame_addr: usize, frame: &ExceptionFrame) -> (r: usize)
    requires
        frame_addr + 32 <= usize::MAX,
    ensures
        r == spec_service_pointer::<T>(frame_addr, *frame),
        size_of::<T>() == 0 ==> r == frame_addr,
        size_of::<T>() != 0 ==> r == frame.r12,
{
    match service_location::<T>(frame_addr) {
        ServiceLocation::ZeroSized => frame_addr,
        ServiceLocation::StackedR12(a) => {
            let w = frame.word_at(a - frame_addr);
            match w {
                Some(v) => v,
                None => frame_addr,
            }
        },
    }
}

/// The stacked return address is the seventh word of the exception frame,
/// for every frame address: reading the word at the address of the stacked
/// return address gives the stacked `PC`, never another register.
pub proof fn lemma_stacked_pc_reads_pc(frame_addr: usize, frame: ExceptionFrame)
    requires
        frame_addr + 24 <= usize::MAX,
    ensures
        spec_stacked_pc(frame_addr as int) - frame_addr == 24,
        spec_frame_word(frame, spec_stacked_pc(frame_addr as int) - frame_addr) == Some(frame.pc),
{
}

/// The body of the `SV_CALL` dispatch for the service `T`: calls `handler`
/// once, on the address of the service found from the exception frame
/// `frame` stacked at `frame_addr` (the frame address itself for a
/// zero-sized service, the stacked `R12` otherwise).
pub fn service_handler<T: SvService, F: FnOnce(usize)>(
    frame_addr: usize,
    frame: &ExceptionFrame,
    handler: F,
)
    requires
        frame_addr + 32 <= usize::MAX,
        call_requires(handler, (spec_service_pointer::<T>(frame_addr, *frame),)),
    ensures
        call_ensures(handler, (spec_service_pointer::<T>(frame_addr, *frame),), ()),
{
    let service = service_pointer::<T>(frame_addr, frame);
    handler(service);
}

/// A supervisor call reaches its service: when `sv_call` issues `SVC num`
/// for the service `T` at `service`, and the processor stacks the `R12` it
/// was given in the exception frame, the service handler is called on
/// `service` itself; a zero-sized service is called on the frame address,
/// and the stacked `R12` is not read.
pub proof fn lemma_service_handler_gets_service<T: SvService>(
    service: usize,
    num: u8,
    frame_addr: usize,
    frame: ExceptionFrame,
)
    requires
        frame_addr + 32 <= usize::MAX,
        spec_sv_call_args::<T>(service, num) matches SvCallArgs::NumAndR12(_, r12) ==> frame.r12
            == r12,
    ensures
        size_of::<T>() != 0 ==> spec_sv_call_args::<T>(service, num) == SvCallArgs::NumAndR12(
            num,
            service,
        ) && spec_service_pointer::<T>(frame_addr, frame) == service,
        size_of::<T>() == 0 ==> spec_sv_call_args::<T>(service, num) == SvCallArgs::Num(num)
            && spec_service_location::<T>(frame_addr) == ServiceLocation::ZeroSized
            && spec_service_pointer::<T>(frame_addr, frame) == frame_addr,
{
}

/// The service that switches to a process stack.
#[derive(Debug, Clone, Copy, PartialEq, Eq, Structural)]
pub struct SwitchContextService {
    /// The address of the word that holds the process stack pointer.
    pub stack_ptr: usize,
    /// The address of the data passed to the process stack.
    pub data_ptr: usize,
}

/// The service that switches back from a process stack.
#[derive(Debug, Clone, Copy, PartialEq, Eq, Structural)]
pub struct SwitchBackService {
    /// The address of the word that holds the address of the data.
    pub data_ptr: usize,
    /// The size of the data, copied back to the previous stack.
    pub data_size: usize,
}

impl SvService for SwitchContextService {}

impl SvService for SwitchBackService {}

/// How switching back copies the data: whole words, then a halfword, then a
/// byte.
#[derive(Debug, Clone, Copy, PartialEq, Eq, Structural)]
pub struct CopyPlan {
    /// The number of bytes copied as words.
    pub word_bytes: usize,
    /// A halfword follows the words.
    pub halfword: bool,
    /// A byte follows.
    pub byte: bool,
}

impl SwitchBackService {
    /// Returns how the data of `data_size` bytes is copied back.
    pub fn copy_plan(&self) -> (r: CopyPlan)
        ensures
            r.word_bytes % 4 == 0,
            r.word_bytes + (if r.halfword { 2int } else { 0 }) + (if r.byte { 1int } else { 0 })
                == self.data_size,
            self.data_size - r.word_bytes < 4,
    {
        let rem = self.data_size % 4;
        CopyPlan { word_bytes: self.data_size - rem, halfword: rem >= 2, byte: rem % 2 == 1 }
    }
}

/// The switch services of a supervisor, for data of type `T`.
pub trait Switch<T>: SvCall<SwitchContextService> + SvCall<SwitchBackService> {
    /// The service that switches to the process stack whose pointer is
    /// stored at `stack_ptr`, passing the data at `data`.
    fn switch_context(data: usize, stack_ptr: usize) -> (r: SwitchContextService)
        ensures
            r.stack_ptr == stack_ptr,
            r.data_ptr == data,
    {
        SwitchContextService { stack_ptr, data_ptr: data }
    }

    /// The service that switches back to the previous stack, copying the
    /// data of type `T` whose address is stored at `data`.
    fn switch_back(data: usize) -> (r: SwitchBackService)
        ensures
            r.data_ptr == data,
            r.data_size == size_of::<T>(),
    {
        SwitchBackService { data_ptr: data, data_size: core::mem::size_of::<T>() }
    }
}

/// Every supervisor with both switch services has the switch calls.
impl<Sv, T> Switch<T> for Sv where Sv: SvCall<SwitchContextService> + SvCall<SwitchBackService> {}

} // verus!
