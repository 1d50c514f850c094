# drone_cortexm

ARM Cortex-M platform support for the Drone embedded operating system, with
its logic verified by Verus.

- `src/` is the verified library. It computes register values (bit fields,
  the SCB, SysTick, MPU and ITM/TPIU registers), the bit-band alias
  addresses, the NVIC register words of interrupts, the supervisor-call
  dispatch (the stack of the exception frame, the `SVC` immediate, the
  services-array entry, and the call of the service handler on the service
  that the supervisor call passed), and the decisions of the driver loops:
  the exclusive read-modify-write retry loop, the register guard counter,
  the SysTick start and stop sequences, the ITM flush, the DMA and EXTI
  completion loops, the executor fibers and the blocking waits. It also
  holds a model of the NVIC state over which the interrupt laws are stated.
- `app/` performs what the library decides on the hardware: volatile
  register accesses, `LDREX`/`STREX`, `WFI`/`WFE`/`SEV`, `SVC` and the
  context-switch handlers (ARM inline assembly), and the std `Waker`s and
  blocking waits over `core::future::Future` and `futures::Stream`.
- `tests/` runs the library on concrete values.
