//! NVIC interrupt control.
//!
//! The interrupts are grouped by 32 into blocks; each block has one word in
//! each of the set-enable, clear-enable, set-pending, clear-pending and
//! active-bit register arrays, one bit per interrupt. Writing ones to a
//! set (clear) register sets (clears) the matching state bits and leaves the
//! others, so a store that holds only the bits of some interrupts changes
//! only those interrupts.

use crate::reg::bits::{bit_is_set, read_bit, set_bit, with_bit_set};
use vstd::prelude::*;

verus! {

/// Interrupt Set-Enable Registers.
pub const NVIC_ISER: usize = 0xE000_E100;
/// Interrupt Clear-Enable Registers.
pub const NVIC_ICER: usize = 0xE000_E180;
/// Interrupt Set-Pending Registers.
pub const NVIC_ISPR: usize = 0xE000_E200;
/// Interrupt Clear-Pending Registers.
pub const NVIC_ICPR: usize = 0xE000_E280;
/// Interrupt Active Bit Registers.
pub const NVIC_IABR: usize = 0xE000_E300;
/// Interrupt Priority Registers, one byte per interrupt.
pub const NVIC_IPR: usize = 0xE000_E400;
/// The number of interrupts the NVIC can handle.
pub const NVIC_INT_COUNT: usize = 496;
/// The number of 32-interrupt blocks.
pub const NVIC_BLOCK_COUNT: usize = 16;

/// One of the NVIC register arrays.
#[derive(Debug, Clone, Copy, PartialEq, Eq, Structural)]
pub enum NvicRegKind {
    /// Interrupt Set-Enable Register.
    Iser,
    /// Interrupt Clear-Enable Register.
    Icer,
    /// Interrupt Set-Pending Register.
    Ispr,
    /// Interrupt Clear-Pending Register.
    Icpr,
    /// Interrupt Active Bit Register.
    Iabr,
}

/// The start address of a register array.
pub open spec fn reg_base(kind: NvicRegKind) -> usize {
    match kind {
        NvicRegKind::Iser => NVIC_ISER,
        NvicRegKind::Icer => NVIC_ICER,
        NvicRegKind::Ispr => NVIC_ISPR,
        NvicRegKind::Icpr => NVIC_ICPR,
        NvicRegKind::Iabr => NVIC_IABR,
    }
}

/// Returns the start address of a register array.
pub fn nvic_reg_base(kind: NvicRegKind) -> (r: usize)
    ensures
        r == reg_base(kind),
        kind == NvicRegKind::Iser ==> r == 0xE000_E100,
        kind == NvicRegKind::Icer ==> r == 0xE000_E180,
        kind == NvicRegKind::Ispr ==> r == 0xE000_E200,
        kind == NvicRegKind::Icpr ==> r == 0xE000_E280,
        kind == NvicRegKind::Iabr ==> r == 0xE000_E300,
{
    match kind {
        NvicRegKind::Iser => NVIC_ISER,
        NvicRegKind::Icer => NVIC_ICER,
        NvicRegKind::Ispr => NVIC_ISPR,
        NvicRegKind::Icpr => NVIC_ICPR,
        NvicRegKind::Iabr => NVIC_IABR,
    }
}

/// The start of each register array in the Cortex-M system control space:
/// set-enable at `0xE000_E100`, clear-enable at `0xE000_E180`, set-pending at
/// `0xE000_E200`, clear-pending at `0xE000_E280`, active at `0xE000_E300`.
pub open spec fn nvic_array_start(kind: NvicRegKind) -> int {
    if kind == NvicRegKind::Iser {
        0xE000_E100
    } else if kind == NvicRegKind::Icer {
        0xE000_E180
    } else if kind == NvicRegKind::Ispr {
        0xE000_E200
    } else if kind == NvicRegKind::Icpr {
        0xE000_E280
    } else {
        0xE000_E300
    }
}

/// The register arrays sit at their architectural addresses, and the words
/// of the arrays never overlap: two stores to different arrays, or to
/// different blocks of one array, go to different addresses. In particular
/// a set-pending store never lands on a clear-pending word.
pub proof fn lemma_nvic_register_map()
    ensures
        forall|kind: NvicRegKind| reg_base(kind) == nvic_array_start(kind),
        forall|k1: NvicRegKind, b1: int, k2: NvicRegKind, b2: int|
            0 <= b1 < NVIC_BLOCK_COUNT && 0 <= b2 < NVIC_BLOCK_COUNT && (k1 != k2 || b1 != b2)
                ==> #[trigger] (reg_base(k1) + 4 * b1) != #[trigger] (reg_base(k2) + 4 * b2),
{
    assert forall|kind: NvicRegKind| reg_base(kind) == nvic_array_start(kind) by {
        match kind {
            NvicRegKind::Iser => {},
            NvicRegKind::Icer => {},
            NvicRegKind::Ispr => {},
            NvicRegKind::Icpr => {},
            NvicRegKind::Iabr => {},
        }
    }
}

/// Each interrupt store goes to the word of its block in its own array: the
/// architectural start of the array plus four bytes per 32 interrupts, with
/// only the bit of the interrupt set.
pub proof fn lemma_single_store_address(kind: NvicRegKind, n: nat)
    requires
        n < NVIC_INT_COUNT,
    ensures
        reg_base(single_store(kind, n).kind) + 4 * single_store(kind, n).block == nvic_array_start(
            kind,
        ) + 4 * (n / 32),
        single_store(kind, n).inner == 1u32 << (n % 32) as u32,
{
    lemma_nvic_register_map();
    let b: u32 = (n % 32) as u32;
    assert(0u32 | (1u32 << b) == 1u32 << b) by (bit_vector);
}

/// A value of one word of an NVIC register array: the word of block `block`
/// of the array `kind`.
#[derive(Debug, Clone, Copy, PartialEq, Eq, Structural)]
pub struct NvicRegVal {
    /// The register array.
    pub kind: NvicRegKind,
    /// The block number.
    pub block: usize,
    /// The register value.
    pub inner: u32,
}

impl NvicRegVal {
    /// Returns the address of the word.
    pub fn address(&self) -> (r: usize)
        requires
            self.block < NVIC_BLOCK_COUNT,
        ensures
            r == reg_base(self.kind) + 4 * self.block,
            r == nvic_array_start(self.kind) + 4 * self.block,
    {
        proof {
            lemma_nvic_register_map();
        }
        nvic_reg_base(self.kind) + 4 * self.block
    }
}

/// An interrupt token: the interrupt it stands for.
pub trait IntToken {
    /// The number of the interrupt.
    spec fn spec_int_num(&self) -> nat;

    /// Returns the number of the interrupt.
    fn int_num(&self) -> (r: usize)
        ensures
            r == self.spec_int_num(),
            r < NVIC_INT_COUNT,
    ;
}

/// The NVIC registers block an interrupt belongs to.
pub trait NvicBlock: IntToken {
    /// Returns the number of the block of the interrupt.
    fn block_num(&self) -> (r: usize)
        ensures
            r == self.spec_int_num() / 32,
            r < NVIC_BLOCK_COUNT,
    {
        let n = self.int_num();
        n / 32
    }

    /// Returns the position of the bit of the interrupt in the words of its
    /// block.
    fn block_offset(&self) -> (r: u32)
        ensures
            r == self.spec_int_num() % 32,
    {
        let n = self.int_num();
        (n % 32) as u32
    }
}

/// The block and the bit position of each interrupt identify it.
pub proof fn lemma_block_offset_identify(n1: nat, n2: nat)
    requires
        n1 / 32 == n2 / 32,
        n1 % 32 == n2 % 32,
    ensures
        n1 == n2,
{
}

/// NVIC methods for interrupt tokens.
pub trait ThrNvic: NvicBlock {
    /// Returns an empty word of the block of this interrupt in the register
    /// array `kind`, to collect a batch of interrupts before it is stored.
    fn batch(&self, kind: NvicRegKind) -> (r: NvicRegVal)
        ensures
            r.kind == kind,
            r.block == self.spec_int_num() / 32,
            r.inner == 0,
    {
        NvicRegVal { kind, block: self.block_num(), inner: 0 }
    }

    /// Adds this interrupt to `nvic_reg`, a word of its block.
    fn write(&self, nvic_reg: &mut NvicRegVal)
        requires
            old(nvic_reg).block == self.spec_int_num() / 32,
        ensures
            final(nvic_reg).kind == old(nvic_reg).kind,
            final(nvic_reg).block == old(nvic_reg).block,
            final(nvic_reg).inner == with_bit_set(
                old(nvic_reg).inner,
                (self.spec_int_num() % 32) as u32,
            ),
    {
        let o = self.block_offset();
        nvic_reg.inner = set_bit(nvic_reg.inner, o);
    }

    /// Returns `true` if this interrupt's bit is set in `nvic_reg`, a word of
    /// its block.
    fn read(&self, nvic_reg: &NvicRegVal) -> (r: bool)
        requires
            nvic_reg.block == self.spec_int_num() / 32,
        ensures
            r == bit_is_set(nvic_reg.inner, (self.spec_int_num() % 32) as u32),
    {
        let o = self.block_offset();
        read_bit(nvic_reg.inner, o)
    }

    /// Returns the word that, stored, acts on this interrupt alone in the
    /// register array `kind`.
    fn single(&self, kind: NvicRegKind) -> (r: NvicRegVal)
        ensures
            r.kind == kind,
            r.block == self.spec_int_num() / 32,
            r.inner == with_bit_set(0, (self.spec_int_num() % 32) as u32),
    {
        let mut r = self.batch(kind);
        self.write(&mut r);
        r
    }

    /// The store that enables the interrupt.
    fn enable_int(&self) -> (r: NvicRegVal)
        ensures
            r == single_store(NvicRegKind::Iser, self.spec_int_num()),
    {
        self.single(NvicRegKind::Iser)
    }

    /// The store that disables the interrupt.
    fn disable_int(&self) -> (r: NvicRegVal)
        ensures
            r == single_store(NvicRegKind::Icer, self.spec_int_num()),
    {
        self.single(NvicRegKind::Icer)
    }

    /// The store that sets the interrupt pending.
    fn set_pending_int(&self) -> (r: NvicRegVal)
        ensures
            r == single_store(NvicRegKind::Ispr, self.spec_int_num()),
    {
        self.single(NvicRegKind::Ispr)
    }

    /// The store that clears the interrupt pending state.
    fn clear_pending_int(&self) -> (r: NvicRegVal)
        ensures
            r == single_store(NvicRegKind::Icpr, self.spec_int_num()),
    {
        self.single(NvicRegKind::Icpr)
    }

    /// Returns `true` if the interrupt is enabled in `nvic_reg`, the loaded
    /// set-enable word of its block.
    fn is_enabled(&self, nvic_reg: &NvicRegVal) -> (r: bool)
        requires
            nvic_reg.block == self.spec_int_num() / 32,
        ensures
            r == bit_is_set(nvic_reg.inner, (self.spec_int_num() % 32) as u32),
    {
        self.read(nvic_reg)
    }

    /// Returns `true` if the interrupt is pending in `nvic_reg`, the loaded
    /// set-pending word of its block.
    fn is_pending(&self, nvic_reg: &NvicRegVal) -> (r: bool)
        requires
            nvic_reg.block == self.spec_int_num() / 32,
        ensures
            r == bit_is_set(nvic_reg.inner, (self.spec_int_num() % 32) as u32),
    {
        self.read(nvic_reg)
    }

    /// Returns `true` if the interrupt is active in `nvic_reg`, the loaded
    /// active-bit word of its block.
    fn is_active(&self, nvic_reg: &NvicRegVal) -> (r: bool)
        requires
            nvic_reg.block == self.spec_int_num() / 32,
        ensures
            r == bit_is_set(nvic_reg.inner, (self.spec_int_num() % 32) as u32),
    {
        self.read(nvic_reg)
    }

    /// Returns the address of the priority byte of the interrupt.
    fn priority_address(&self) -> (r: usize)
        ensures
            r == NVIC_IPR + self.spec_int_num(),
    {
        NVIC_IPR + self.int_num()
    }
}

/// The store that acts on interrupt `n` alone in the register array `kind`.
pub open spec fn single_store(kind: NvicRegKind, n: nat) -> NvicRegVal {
    NvicRegVal { kind, block: (n / 32) as usize, inner: with_bit_set(0, (n % 32) as u32) }
}

/// An interrupt line of the NVIC.
#[derive(Debug, Clone, Copy, PartialEq, Eq, Structural)]
pub struct IntLine {
    num: usize,
}

impl IntLine {
    #[verifier::type_invariant]
    spec fn inv(self) -> bool {
        self.num < NVIC_INT_COUNT
    }

    /// The interrupt number.
    pub closed spec fn num(self) -> usize {
        self.num
    }

    /// Returns the line of interrupt `num`, if the NVIC has it.
    pub fn new(num: usize) -> (r: Option<IntLine>)
        ensures
            num < NVIC_INT_COUNT <==> r is Some,
            r matches Some(l) ==> l.num() == num,
    {
        if num < NVIC_INT_COUNT {
            Some(IntLine { num })
        } else {
            None
        }
    }
}

impl IntToken for IntLine {
    open spec fn spec_int_num(&self) -> nat {
        self.num() as nat
    }

    fn int_num(&self) -> (r: usize) {
        proof {
            use_type_invariant(self);
        }
        self.num
    }
}

impl NvicBlock for IntLine {}

impl ThrNvic for IntLine {}

/// The state of the NVIC: the enabled, pending and active bits of each
/// block, and the priority of each interrupt.
pub struct Nvic {
    enabled: Vec<u32>,
    pending: Vec<u32>,
    active: Vec<u32>,
    priority: Vec<u8>,
}

/// The state bits of interrupt `n` in the words `words`.
pub open spec fn state_bit(words: Seq<u32>, n: nat) -> bool {
    bit_is_set(words[(n / 32) as int], (n % 32) as u32)
}

impl Nvic {
    /// The state has one word per block and one priority per interrupt.
    pub open spec fn wf(self) -> bool {
        &&& self.enabled().len() == NVIC_BLOCK_COUNT
        &&& self.pending().len() == NVIC_BLOCK_COUNT
        &&& self.active().len() == NVIC_BLOCK_COUNT
        &&& self.priorities().len() == NVIC_INT_COUNT
    }

    /// The enable bit of each interrupt, by block.
    pub closed spec fn enabled(self) -> Seq<u32> {
        self.enabled@
    }

    /// The pending bit of each interrupt, by block.
    pub closed spec fn pending(self) -> Seq<u32> {
        self.pending@
    }

    /// The active bit of each interrupt, by block.
    pub closed spec fn active(self) -> Seq<u32> {
        self.active@
    }

    /// The priority of each interrupt.
    pub closed spec fn priorities(self) -> Seq<u8> {
        self.priority@
    }

    /// The NVIC after reset: every interrupt disabled, not pending, not
    /// active, at priority 0.
    pub fn new() -> (r: Nvic)
        ensures
            r.wf(),
            r.enabled() == Seq::new(NVIC_BLOCK_COUNT as nat, |i: int| 0u32),
            r.pending() == Seq::new(NVIC_BLOCK_COUNT as nat, |i: int| 0u32),
            r.active() == Seq::new(NVIC_BLOCK_COUNT as nat, |i: int| 0u32),
            r.priorities() == Seq::new(NVIC_INT_COUNT as nat, |i: int| 0u8),
    {
        let mut words: Vec<u32> = Vec::new();
        let mut i: usize = 0;
        while i < NVIC_BLOCK_COUNT
            invariant
                i <= NVIC_BLOCK_COUNT,
                words@ == Seq::new(i as nat, |j: int| 0u32),
            decreases NVIC_BLOCK_COUNT - i,
        {
            words.push(0);
            i = i + 1;
            assert(words@ =~= Seq::new(i as nat, |j: int| 0u32));
        }
        let mut priority: Vec<u8> = Vec::new();
        let mut k: usize = 0;
        while k < NVIC_INT_COUNT
            invariant
                k <= NVIC_INT_COUNT,
                priority@ == Seq::new(k as nat, |j: int| 0u8),
            decreases NVIC_INT_COUNT - k,
        {
            priority.push(0);
            k = k + 1;
            assert(priority@ =~= Seq::new(k as nat, |j: int| 0u8));
        }
        Nvic { enabled: words.clone(), pending: words.clone(), active: words, priority }
    }

    /// Returns the word that a load of `kind` for `block` reads.
    pub fn load(&self, kind: NvicRegKind, block: usize) -> (r: NvicRegVal)
        requires
            self.wf(),
            block < NVIC_BLOCK_COUNT,
        ensures
            r.kind == kind,
            r.block == block,
            r.inner == match kind {
                NvicRegKind::Iser | NvicRegKind::Icer => self.enabled()[block as int],
                NvicRegKind::Ispr | NvicRegKind::Icpr => self.pending()[block as int],
                NvicRegKind::Iabr => self.active()[block as int],
            },
    {
        let inner = match kind {
            NvicRegKind::Iser | NvicRegKind::Icer => self.enabled[block],
            NvicRegKind::Ispr | NvicRegKind::Icpr => self.pending[block],
            NvicRegKind::Iabr => self.active[block],
        };
        NvicRegVal { kind, block, inner }
    }

    /// Performs the store of `val`: the set registers set the bits that are
    /// one in the value, the clear registers clear them, the active bits are
    /// read-only.
    pub fn store(&mut self, val: NvicRegVal)
        requires
            old(self).wf(),
            val.block < NVIC_BLOCK_COUNT,
        ensures
            final(self).wf(),
            final(self).priorities() == old(self).priorities(),
            final(self).enabled() == match val.kind {
                NvicRegKind::Iser => old(self).enabled().update(
                    val.block as int,
                    old(self).enabled()[val.block as int] | val.inner,
                ),
                NvicRegKind::Icer => old(self).enabled().update(
                    val.block as int,
                    old(self).enabled()[val.block as int] & !val.inner,
                ),
                _ => old(self).enabled(),
            },
            final(self).pending() == match val.kind {
                NvicRegKind::Ispr => old(self).pending().update(
                    val.block as int,
                    old(self).pending()[val.block as int] | val.inner,
                ),
                NvicRegKind::Icpr => old(self).pending().update(
                    val.block as int,
                    old(self).pending()[val.block as int] & !val.inner,
                ),
                _ => old(self).pending(),
            },
            final(self).active() == old(self).active(),
    {
        let b = val.block;
        match val.kind {
            NvicRegKind::Iser => {
                let w = self.enabled[b] | val.inner;
                self.enabled.set(b, w);
            },
            NvicRegKind::Icer => {
                let w = self.enabled[b] & !val.inner;
                self.enabled.set(b, w);
            },
            NvicRegKind::Ispr => {
                let w = self.pending[b] | val.inner;
                self.pending.set(b, w);
            },
            NvicRegKind::Icpr => {
                let w = self.pending[b] & !val.inner;
                self.pending.set(b, w);
            },
            NvicRegKind::Iabr => {},
        }
    }

    /// Performs a store of `value` to the Software Trigger Interrupt
    /// Register, which sets interrupt `value` pending.
    pub fn store_stir(&mut self, value: usize)
        requires
            old(self).wf(),
            value < NVIC_INT_COUNT,
        ensures
            final(self).wf(),
            final(self).pending() == old(self).pending().update(
                (value / 32) as int,
                old(self).pending()[(value / 32) as int] | with_bit_set(0, (value % 32) as u32),
            ),
            final(self).enabled() == old(self).enabled(),
            final(self).active() == old(self).active(),
            final(self).priorities() == old(self).priorities(),
    {
        let o = (value % 32) as u32;
        let inner = set_bit(0, o);
        self.store(NvicRegVal { kind: NvicRegKind::Ispr, block: value / 32, inner });
    }

    /// Returns the priority of interrupt `n`.
    pub fn priority(&self, n: usize) -> (r: u8)
        requires
            self.wf(),
            n < NVIC_INT_COUNT,
        ensures
            r == self.priorities()[n as int],
    {
        self.priority[n]
    }

    /// Sets the priority of interrupt `n`.
    pub fn set_priority(&mut self, n: usize, priority: u8)
        requires
            old(self).wf(),
            n < NVIC_INT_COUNT,
        ensures
            final(self).wf(),
            final(self).priorities() == old(self).priorities().update(n as int, priority),
            final(self).enabled() == old(self).enabled(),
            final(self).pending() == old(self).pending(),
            final(self).active() == old(self).active(),
    {
        self.priority.set(n, priority);
    }
}

/// Storing the set (clear) word of a single interrupt `n` sets (clears) the
/// state bit of `n` and keeps the state bit of every other interrupt `m`.
pub proof fn lemma_single_store(words: Seq<u32>, n: nat, m: nat, set: bool)
    requires
        words.len() == NVIC_BLOCK_COUNT,
        n < NVIC_INT_COUNT,
        m < NVIC_INT_COUNT,
    ensures
        ({
            let b = (n / 32) as int;
            let v = with_bit_set(0, (n % 32) as u32);
            let new_words = if set {
                words.update(b, words[b] | v)
            } else {
                words.update(b, words[b] & !v)
            };
            &&& state_bit(new_words, n) == set
            &&& m != n ==> state_bit(new_words, m) == state_bit(words, m)
        }),
{
    let b = (n / 32) as int;
    let o = (n % 32) as u32;
    let mo = (m % 32) as u32;
    let w = words[b];
    let v = with_bit_set(0u32, o);
    assert({
        &&& (w | (0u32 | (1u32 << o))) & (1u32 << o) != 0
        &&& (w & !(0u32 | (1u32 << o))) & (1u32 << o) == 0
        &&& o != mo ==> (((w | (0u32 | (1u32 << o))) & (1u32 << mo) != 0) == (w & (1u32 << mo)
            != 0))
        &&& o != mo ==> (((w & !(0u32 | (1u32 << o))) & (1u32 << mo) != 0) == (w & (1u32 << mo)
            != 0))
    }) by (bit_vector)
        requires
            o < 32,
            mo < 32,
    ;
    if m != n && (m / 32) as int == b {
        assert(mo != o);
    }
}

} // verus!
