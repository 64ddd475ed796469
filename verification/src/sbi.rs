//! The privileged call gateway.
//!
//! Kernel-privilege code cannot touch the console hardware or power state
//! directly; it issues a request across the privilege boundary — service id
//! and three arguments in the transfer slots, the auxiliary selector cleared
//! for legacy whole-service mode — and reads one response word back. On the
//! modeled [`Machine`](crate::machine::Machine) the two services this layer
//! uses are firmware writing one byte to the console and firmware halting
//! the machine.

use vstd::prelude::*;

use crate::machine::Machine;

verus! {

/// Legacy service id: write one character to the console.
pub const SBI_CONSOLE_PUTCHAR: usize = 1;

/// Legacy service id: power the machine off.
pub const SBI_SHUTDOWN: usize = 8;

/// One synchronous transfer to firmware. Console output appends the low
/// byte of `arg0` to the transcript and succeeds; a shutdown request is
/// counted and halts the machine exactly when firmware honors it (a request
/// that returns at all is the caller's contract violation to escalate); any
/// other service id is refused without effect. Only the response slot is
/// meaningful to the caller afterwards.
pub fn sbi_call(m: &mut Machine, which: usize, arg0: usize, arg1: usize, arg2: usize) -> (ret: usize)
    requires
        !old(m).halted,
        which == SBI_SHUTDOWN ==> old(m).shutdown_requests < u64::MAX,
    ensures
        final(m).mem@ == old(m).mem@,
        final(m).firmware_honors_shutdown == old(m).firmware_honors_shutdown,
        which == SBI_CONSOLE_PUTCHAR ==> {
            &&& final(m).console@ == old(m).console@ + seq![arg0 as u8]
            &&& !final(m).halted
            &&& final(m).shutdown_requests == old(m).shutdown_requests
            &&& ret == 0
        },
        which == SBI_SHUTDOWN ==> {
            &&& final(m).console@ == old(m).console@
            &&& final(m).shutdown_requests == old(m).shutdown_requests + 1
            &&& final(m).halted == old(m).firmware_honors_shutdown
        },
        which != SBI_CONSOLE_PUTCHAR && which != SBI_SHUTDOWN ==> {
            &&& final(m).console@ == old(m).console@
            &&& !final(m).halted
            &&& final(m).shutdown_requests == old(m).shutdown_requests
        },
{
    let _ = arg1;
    let _ = arg2;
    if which == SBI_CONSOLE_PUTCHAR {
        m.console.push(arg0 as u8);
        0
    } else if which == SBI_SHUTDOWN {
        m.shutdown_requests = m.shutdown_requests + 1;
        if m.firmware_honors_shutdown {
            m.halted = true;
        }
        0
    } else {
        // Firmware refuses a service id this layer never uses; the error
        // word is firmware-defined and callers may not depend on it.
        usize::MAX
    }
}

/// Shut the machine down. Expected never to return: when firmware honors
/// the request the machine halts with nothing further on the console. A
/// request that returns is firmware violating the expected contract, and
/// the one fault this layer manufactures itself: the terminator reports
/// `System shutdown!`, requests shutdown once more, and halts outright.
pub fn shutdown(m: &mut Machine)
    requires
        !old(m).halted,
        old(m).shutdown_requests + 1 < u64::MAX,
    ensures
        final(m).halted,
        final(m).mem@ == old(m).mem@,
        final(m).firmware_honors_shutdown == old(m).firmware_honors_shutdown,
        old(m).firmware_honors_shutdown ==> {
            &&& final(m).console@ == old(m).console@
            &&& final(m).shutdown_requests == old(m).shutdown_requests + 1
        },
        !old(m).firmware_honors_shutdown ==> {
            &&& final(m).console@ == old(m).console@ + crate::fault::panic_line(
                (crate::fault::FaultContext { location: None, message: "System shutdown!" }),
            )
            &&& final(m).shutdown_requests == old(m).shutdown_requests + 2
        },
{
    sbi_call(m, SBI_SHUTDOWN, 0, 0, 0);
    if !m.halted {
        crate::fault::terminate(
            m,
            crate::fault::FaultContext { location: None, message: "System shutdown!" },
        );
    }
}

/// Fire-and-forget console output: hand one character code to firmware and
/// discard the response.
pub fn console_putchar(m: &mut Machine, c: usize)
    requires
        !old(m).halted,
    ensures
        final(m).console@ == old(m).console@ + seq![c as u8],
        crate::machine::only_console_changed(*old(m), *final(m)),
{
    sbi_call(m, SBI_CONSOLE_PUTCHAR, c, 0, 0);
}

} // verus!
