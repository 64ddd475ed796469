//! The machine state that the boot layer drives.
//!
//! At this phase nothing but this layer runs: a single hart, no interrupts,
//! no preemption. The whole observable world is therefore a small state —
//! the modeled RAM holding the zero-initialized data class, the transcript of
//! bytes handed to the firmware console, how many shutdown requests firmware
//! has received, and whether the machine has halted. `halted` is the one
//! terminal state: no operation accepts a halted machine.

use vstd::prelude::*;

verus! {

/// The machine as this layer observes it.
pub struct Machine {
    /// Modeled RAM; the uninitialized-data segment lies inside it.
    pub mem: Vec<u8>,
    /// Every byte handed to the firmware console, in emission order.
    pub console: Vec<u8>,
    /// How many shutdown requests firmware has received.
    pub shutdown_requests: u64,
    /// Whether the machine has terminated. Terminal: nothing runs after it.
    pub halted: bool,
    /// Whether firmware honors a shutdown request. When it does not, the
    /// request returns — the contract violation that the gateway escalates.
    pub firmware_honors_shutdown: bool,
}

/// One linker-provided memory region, `[start, end)`. Addresses are opaque
/// values fixed by the link step; this layer only reads them.
pub struct Segment {
    /// The region's label as it appears in diagnostics (".text", ".bss", ...).
    pub name: String,
    /// First address of the region.
    pub start: usize,
    /// One past the last address of the region.
    pub end: usize,
}

impl Segment {
    /// A region is well-formed when it is not inverted.
    pub open spec fn wf(self) -> bool {
        self.start <= self.end
    }
}

/// The memory layout the link step hands to the boot sequencer: the five
/// reported regions plus the address of the logger singleton's storage,
/// which lies inside the uninitialized-data segment.
pub struct MemoryLayout {
    /// Code segment.
    pub text: Segment,
    /// Read-only data segment.
    pub rodata: Segment,
    /// Initialized data segment.
    pub data: Segment,
    /// Boot stack region, lower bound to top.
    pub stack: Segment,
    /// Uninitialized-data segment; zero-filled before any use.
    pub bss: Segment,
    /// Address of the logger singleton's two bytes of storage, inside `bss`.
    pub logger_addr: usize,
}

impl MemoryLayout {
    /// Well-formed against a machine whose modeled RAM has `mem_len` bytes:
    /// every region is ordered, the uninitialized-data segment lies inside
    /// the modeled RAM, and the logger's storage lies inside that segment.
    pub open spec fn wf(self, mem_len: nat) -> bool {
        &&& self.text.wf()
        &&& self.rodata.wf()
        &&& self.data.wf()
        &&& self.stack.wf()
        &&& self.bss.wf()
        &&& self.bss.end <= mem_len
        &&& self.bss.start <= self.logger_addr
        &&& self.logger_addr + 2 <= self.bss.end
    }
}

/// The console is the only thing an operation touched: RAM, the shutdown
/// count, the halt flag and the firmware's disposition are all unchanged.
pub open spec fn only_console_changed(pre: Machine, post: Machine) -> bool {
    &&& post.mem@ == pre.mem@
    &&& post.shutdown_requests == pre.shutdown_requests
    &&& post.halted == pre.halted
    &&& post.firmware_honors_shutdown == pre.firmware_honors_shutdown
}

} // verus!
