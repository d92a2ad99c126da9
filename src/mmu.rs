//! The memory unit: a flat byte store with interception policies on
//! address regions.
use vstd::prelude::*;

verus! {

/// Number of addressable bytes: addresses `0..MEM_SIZE`.
pub const MEM_SIZE: usize = 0xffff;

/// What the CPU sees when it reads a byte under a handler.
#[derive(Debug, Clone, Copy, PartialEq, Eq, Structural)]
pub enum MemRead {
    /// The CPU sees this value in place of the stored one.
    Replace(u8),
    /// The CPU sees the stored value.
    PassThrough,
}

/// What happens when the CPU writes a byte under a handler.
#[derive(Debug, Clone, Copy, PartialEq, Eq, Structural)]
pub enum MemWrite {
    /// This value is stored in place of the CPU's.
    Replace(u8),
    /// The CPU's value is stored.
    PassThrough,
    /// Nothing is stored, and the write still succeeds.
    Block,
}

/// The read and write policies of one memory region.
#[derive(Debug, Clone, Copy, PartialEq, Eq, Structural)]
pub struct MemHandler {
    pub on_read: MemRead,
    pub on_write: MemWrite,
}

/// The policy of memory that no handler covers.
pub open spec fn io_handle() -> MemHandler {
    MemHandler { on_read: MemRead::PassThrough, on_write: MemWrite::PassThrough }
}

/// A 16-bit memory address.
#[derive(Debug, Clone, Copy, PartialEq, Eq, Structural)]
pub struct Addr(pub u16);

/// A region `start..=end` with its handler.
pub type Region = (u16, u16, MemHandler);

/// The handler of address `a`: that of the last registered region that
/// covers it, else the pass-through policy.
pub open spec fn handler_for(regions: Seq<Region>, a: u16) -> MemHandler
    decreases regions.len(),
{
    if regions.len() == 0 {
        io_handle()
    } else {
        let r = regions.last();
        if r.0 <= a && a <= r.1 {
            r.2
        } else {
            handler_for(regions.drop_last(), a)
        }
    }
}

/// The memory unit as plain values.
pub struct MmuView {
    pub memory: Seq<u8>,
    pub regions: Seq<Region>,
}

impl MmuView {
    /// The byte the CPU reads at `a`; `None` out of range.
    pub open spec fn read(self, a: u16) -> Option<u8> {
        if a >= self.memory.len() {
            None
        } else {
            match handler_for(self.regions, a).on_read {
                MemRead::Replace(v) => Some(v),
                MemRead::PassThrough => Some(self.memory[a as int]),
            }
        }
    }

    /// The memory after the CPU writes `v` at `a`; `None` out of range.
    pub open spec fn write(self, a: u16, v: u8) -> Option<MmuView> {
        if a >= self.memory.len() {
            None
        } else {
            match handler_for(self.regions, a).on_write {
                MemWrite::Replace(w) => Some(
                    MmuView { memory: self.memory.update(a as int, w), ..self },
                ),
                MemWrite::PassThrough => Some(
                    MmuView { memory: self.memory.update(a as int, v), ..self },
                ),
                MemWrite::Block => Some(self),
            }
        }
    }

    /// The little-endian word the CPU reads at `a` and `a + 1`.
    pub open spec fn read_word16(self, a: u16) -> Option<u16> {
        if a == 0xffff {
            None
        } else {
            match (self.read(a), self.read((a + 1) as u16)) {
                (Some(lo), Some(hi)) => Some((lo + 256 * hi) as u16),
                _ => None,
            }
        }
    }

    /// The memory after the CPU writes the little-endian word `w` at `a`
    /// and `a + 1`; `None`, with nothing written, when either is out of
    /// range.
    pub open spec fn write_word16(self, a: u16, w: u16) -> Option<MmuView> {
        if a == 0xffff || a + 1 >= self.memory.len() {
            None
        } else {
            match self.write(a, (w % 256) as u8) {
                Some(m) => m.write((a + 1) as u16, (w / 256) as u8),
                None => None,
            }
        }
    }
}

/// The memory unit.
pub struct Mmu {
    memory: Vec<u8>,
    regions: Vec<Region>,
}

impl View for Mmu {
    type V = MmuView;

    closed spec fn view(&self) -> MmuView {
        MmuView { memory: self.memory@, regions: self.regions@ }
    }
}

impl Addr {
    /// The handler that covers this address in `mmu`.
    pub fn get_handler(&self, mmu: &Mmu) -> (r: MemHandler)
        ensures
            r == handler_for(mmu@.regions, self.0),
    {
        mmu.handler(self.0)
    }
}

impl Mmu {
    /// Zeroed memory with no handler.
    pub fn new() -> (r: Self)
        ensures
            r@.memory == Seq::new(MEM_SIZE as nat, |i: int| 0u8),
            r@.regions.len() == 0,
    {
        let mut memory: Vec<u8> = Vec::new();
        while memory.len() < MEM_SIZE
            invariant
                memory.len() <= MEM_SIZE,
                forall|i: int| 0 <= i < memory.len() ==> memory@[i] == 0u8,
            decreases MEM_SIZE - memory.len(),
        {
            memory.push(0u8);
        }
        assert(memory@ =~= Seq::new(MEM_SIZE as nat, |i: int| 0u8));
        Self { memory, regions: Vec::new() }
    }

    /// Puts the region `start..=end` under `handler`; it takes precedence
    /// over the regions registered before it.
    pub fn add_handler(&mut self, start: u16, end: u16, handler: MemHandler)
        ensures
            final(self)@ == (MmuView {
                regions: old(self)@.regions.push((start, end, handler)),
                ..old(self)@
            }),
    {
        self.regions.push((start, end, handler));
    }

    fn handler(&self, a: u16) -> (r: MemHandler)
        ensures
            r == handler_for(self@.regions, a),
    {
        let mut i = self.regions.len();
        assert(self.regions@.take(i as int) =~= self.regions@);
        while i > 0
            invariant
                i <= self.regions@.len(),
                handler_for(self.regions@.take(i as int), a) == handler_for(self.regions@, a),
            decreases i,
        {
            let r = self.regions[i - 1];
            assert(self.regions@.take(i as int).drop_last() =~= self.regions@.take(i - 1));
            if r.0 <= a && a <= r.1 {
                return r.2;
            }
            i = i - 1;
        }
        MemHandler { on_read: MemRead::PassThrough, on_write: MemWrite::PassThrough }
    }

    /// Reads the byte at `addr` as the CPU sees it.
    pub fn read_word(&self, addr: Addr) -> (r: Option<u8>)
        ensures
            r == self@.read(addr.0),
    {
        let a = addr.0 as usize;
        if a >= self.memory.len() {
            return None;
        }
        match self.handler(addr.0).on_read {
            MemRead::Replace(v) => Some(v),
            MemRead::PassThrough => Some(self.memory[a]),
        }
    }

    /// Writes the byte `value` at `addr` under its handler's policy.
    pub fn write_word(&mut self, addr: Addr, value: u8) -> (r: Option<()>)
        ensures
            match old(self)@.write(addr.0, value) {
                Some(m) => r is Some && final(self)@ == m,
                None => r is None && final(self)@ == old(self)@,
            },
    {
        let a = addr.0 as usize;
        if a >= self.memory.len() {
            return None;
        }
        match self.handler(addr.0).on_write {
            MemWrite::Replace(v) => {
                self.memory.set(a, v);
            },
            MemWrite::PassThrough => {
                self.memory.set(a, value);
            },
            MemWrite::Block => {},
        }
        Some(())
    }

    /// Reads the little-endian word at `addr` and `addr + 1`.
    pub fn read_dword(&self, addr: Addr) -> (r: Option<u16>)
        ensures
            r == self@.read_word16(addr.0),
    {
        if addr.0 == 0xffff {
            return None;
        }
        let lo = match self.read_word(addr) {
            Some(v) => v,
            None => {
                return None;
            },
        };
        let hi = match self.read_word(Addr(addr.0 + 1)) {
            Some(v) => v,
            None => {
                return None;
            },
        };
        Some(lo as u16 + 256 * (hi as u16))
    }

    /// Writes the little-endian word `value` at `addr` and `addr + 1`;
    /// nothing is written when either address is out of range.
    pub fn write_dword(&mut self, addr: Addr, value: u16) -> (r: Option<()>)
        ensures
            match old(self)@.write_word16(addr.0, value) {
                Some(m) => r is Some && final(self)@ == m,
                None => r is None && final(self)@ == old(self)@,
            },
    {
        if addr.0 == 0xffff || addr.0 as usize + 1 >= self.memory.len() {
            return None;
        }
        self.write_word(addr, (value % 256) as u8);
        self.write_word(Addr(addr.0 + 1), (value / 256) as u8);
        Some(())
    }
}

} // verus!
