//! A bus that is nothing but memory, for running the processor on its own.
use crate::interrupts::InterruptManager;
use crate::sm83::bus::Bus;
use vstd::prelude::*;

verus! {

/// Bytes that sixteen address bits reach.
pub const ADDRESS_SPACE: usize = 0x10000;

/// One access to the bus.
#[derive(Debug, Clone, Copy, PartialEq, Eq, Structural)]
pub struct Access {
    pub addr: u16,
    pub data: u8,
    pub write: bool,
}

/// Sixty-four KiB of RAM that keeps a record of every access and counts the
/// T-cycles.
pub struct RamBus {
    pub ram: Vec<u8>,
    /// The accesses, oldest first.
    pub hist: Vec<Access>,
    /// T-cycles that have passed, modulo 2^64.
    pub ticks: u64,
}

/// The bus as a mathematical value.
pub struct RamBusView {
    pub ram: Seq<u8>,
    pub hist: Seq<Access>,
    pub ticks: u64,
}

impl View for RamBus {
    type V = RamBusView;

    open spec fn view(&self) -> RamBusView {
        RamBusView { ram: self.ram@, hist: self.hist@, ticks: self.ticks }
    }
}

impl RamBus {
    /// A bus whose memory is zero.
    pub fn new() -> (b: RamBus)
        ensures
            <RamBus as Bus>::inv(b@),
            b@.ram == Seq::new(ADDRESS_SPACE as nat, |i: int| 0u8),
            b@.hist == Seq::<Access>::empty(),
            b@.ticks == 0,
    {
        let ram = vec![0u8; ADDRESS_SPACE];
        assert(ram@ =~= Seq::new(ADDRESS_SPACE as nat, |i: int| 0u8));
        let hist: Vec<Access> = Vec::new();
        assert(hist@ =~= Seq::<Access>::empty());
        RamBus { ram, hist, ticks: 0 }
    }

    /// Puts `bytes` into the memory from `start` on, as far as the memory goes;
    /// nothing is recorded.
    pub fn fill(&mut self, start: u16, bytes: &[u8])
        requires
            <RamBus as Bus>::inv(old(self)@),
        ensures
            <RamBus as Bus>::inv(final(self)@),
            final(self)@.hist == old(self)@.hist,
            final(self)@.ticks == old(self)@.ticks,
            forall|i: int|
                0 <= i < ADDRESS_SPACE ==> final(self)@.ram[i] == (if start <= i < start
                    + bytes@.len() {
                    bytes@[i - start]
                } else {
                    old(self)@.ram[i]
                }),
    {
        let mut k: usize = 0;
        while k < bytes.len() && start as usize + k < ADDRESS_SPACE
            invariant
                self.ram@.len() == ADDRESS_SPACE,
                self.hist@ == old(self)@.hist,
                self.ticks == old(self)@.ticks,
                k <= bytes@.len(),
                start + k <= ADDRESS_SPACE,
                forall|i: int|
                    0 <= i < ADDRESS_SPACE ==> self.ram@[i] == (if start <= i < start + k {
                        bytes@[i - start]
                    } else {
                        old(self)@.ram[i]
                    }),
            decreases bytes@.len() - k,
        {
            self.ram.set(start as usize + k, bytes[k]);
            k = k + 1;
        }
    }

    /// Forgets the record of accesses.
    pub fn clear_history(&mut self)
        ensures
            final(self)@ == (RamBusView { hist: Seq::empty(), ..old(self)@ }),
    {
        self.hist.clear();
    }
}

impl Bus for RamBus {
    /// The memory is whole.
    open spec fn inv(v: RamBusView) -> bool {
        v.ram.len() == ADDRESS_SPACE
    }

    open spec fn load_spec(v: RamBusView, a: u16) -> (RamBusView, u8) {
        (
            RamBusView {
                hist: v.hist.push(Access { addr: a, data: v.ram[a as int], write: false }),
                ..v
            },
            v.ram[a as int],
        )
    }

    open spec fn store_spec(v: RamBusView, a: u16, d: u8) -> RamBusView {
        RamBusView {
            ram: v.ram.update(a as int, d),
            hist: v.hist.push(Access { addr: a, data: d, write: true }),
            ..v
        }
    }

    open spec fn external_step_spec(v: RamBusView, div: u16, ints: InterruptManager) -> (
        RamBusView,
        InterruptManager,
    ) {
        (
            RamBusView {
                ticks: if v.ticks == u64::MAX {
                    0
                } else {
                    (v.ticks + 1) as u64
                },
                ..v
            },
            ints,
        )
    }

    fn load(&mut self, a: u16) -> (r: u8) {
        let v = self.ram[a as usize];
        self.hist.push(Access { addr: a, data: v, write: false });
        v
    }

    fn store(&mut self, a: u16, d: u8) {
        self.ram.set(a as usize, d);
        self.hist.push(Access { addr: a, data: d, write: true });
    }

    fn external_step(&mut self, div: u16, ints: &mut InterruptManager) {
        self.ticks = self.ticks.wrapping_add(1);
    }
}

} // verus!
