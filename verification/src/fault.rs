//! The fault terminator: the single global sink for every unrecoverable
//! condition.
//!
//! Whatever fails, wherever it fails, routes here with a fault context,
//! and nowhere else: one formatted line reports the fault, then the machine
//! is shut down. Termination is unconditional — if firmware declines even
//! the shutdown request, the terminator halts the machine outright rather
//! than escalate again.

use vstd::prelude::*;

use crate::console::dec_digits;
use crate::console::print_dec;
use crate::console::print_str;
use crate::machine::Machine;
use crate::sbi::SBI_SHUTDOWN;
use crate::sbi::sbi_call;

verus! {

use vstd::string::StringSliceAdditionalSpecFns;

/// What an unrecoverable condition carries to the terminator: where it
/// arose, if a source location is known, and one message. Constructed at
/// the point of failure, consumed immediately, never stored.
pub struct FaultContext<'a> {
    /// The failing source file and line, when known.
    pub location: Option<(&'a str, u32)>,
    /// What went wrong.
    pub message: &'a str,
}

/// The one line a fault reports before the machine goes down.
pub open spec fn panic_line<'a>(ctx: FaultContext<'a>) -> Seq<u8> {
    match ctx.location {
        Option::Some((file, line)) => "[kernel] Panicked at ".spec_bytes() + file.spec_bytes()
            + ":".spec_bytes() + dec_digits(line as nat) + " ".spec_bytes()
            + ctx.message.spec_bytes() + "\n".spec_bytes(),
        Option::None => "[kernel] Panicked: ".spec_bytes() + ctx.message.spec_bytes()
            + "\n".spec_bytes(),
    }
}

/// Terminate the machine on an unrecoverable fault: report the fault as one
/// line, then request shutdown. A terminal state — the machine is halted
/// afterwards no matter what firmware did, and control never continues into
/// further kernel work.
pub fn terminate(m: &mut Machine, ctx: FaultContext<'_>)
    requires
        !old(m).halted,
        old(m).shutdown_requests < u64::MAX,
    ensures
        final(m).halted,
        final(m).console@ == old(m).console@ + panic_line(ctx),
        final(m).shutdown_requests == old(m).shutdown_requests + 1,
        final(m).mem@ == old(m).mem@,
        final(m).firmware_honors_shutdown == old(m).firmware_honors_shutdown,
{
    match ctx.location {
        Option::Some((file, line)) => {
            print_str(m, "[kernel] Panicked at ");
            print_str(m, file);
            print_str(m, ":");
            print_dec(m, line as u64);
            print_str(m, " ");
            print_str(m, ctx.message);
            print_str(m, "\n");
        },
        Option::None => {
            print_str(m, "[kernel] Panicked: ");
            print_str(m, ctx.message);
            print_str(m, "\n");
        },
    }
    assert(m.console@ =~= old(m).console@ + panic_line(ctx));
    sbi_call(m, SBI_SHUTDOWN, 0, 0, 0);
    if !m.halted {
        // Firmware declined the shutdown request. One bounded response:
        // halt outright instead of faulting again and recursing.
        m.halted = true;
    }
}

} // verus!
