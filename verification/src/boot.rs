//! The boot sequencer: from "freshly loaded by firmware" to shutdown.
//!
//! Strictly ordered phases: zero the uninitialized-data segment, initialize
//! the logging facility (only afterwards — its singleton's storage lives in
//! the segment just zeroed), emit the always-on greeting, emit one segment
//! report per severity as a self-test of every severity path, then request
//! shutdown and never regain control.

use vstd::prelude::*;

use crate::console::hex_repr;
use crate::console::print_hex;
use crate::console::print_str;
use crate::fault::FaultContext;
use crate::fault::panic_line;
use crate::logging::Severity;
use crate::logging::Threshold;
use crate::logging::enabled;
use crate::logging::log_line;
use crate::logging::logger_initialized;
use crate::logging::logger_threshold;
use crate::logging::passes;
use crate::logging::print_line_prefix;
use crate::logging::threshold_of_config;
use crate::machine::Machine;
use crate::machine::MemoryLayout;
use crate::machine::Segment;
use crate::machine::only_console_changed;
use crate::sbi::shutdown;

verus! {

use vstd::string::StringSliceAdditionalSpecFns;
use vstd::utf8::encode_utf8;

/// The startup banner: always emitted, independent of the threshold, with
/// no severity coloring.
pub open spec fn greeting() -> Seq<u8> {
    "[kernel] Hello, world!\n".spec_bytes()
}

/// One segment's report message: its label and its `[start, end)` range in
/// hexadecimal.
pub open spec fn segment_message(seg: Segment) -> Seq<u8> {
    "[kernel] ".spec_bytes() + encode_utf8(seg.name@) + " [".spec_bytes() + hex_repr(
        seg.start as nat,
    ) + ", ".spec_bytes() + hex_repr(seg.end as nat) + ")".spec_bytes()
}

/// What one segment report leaves on the console: its rendered line when
/// its severity passes the threshold, and nothing otherwise.
pub open spec fn segment_line(severity: Severity, seg: Segment, threshold: Threshold) -> Seq<u8> {
    if passes(severity, threshold) {
        log_line(severity, segment_message(seg))
    } else {
        Seq::empty()
    }
}

/// The five segment reports in their fixed call order — `Trace`, `Debug`,
/// `Info`, `Warn`, `Error`, call order and not severity order — each
/// filtered by the threshold.
pub open spec fn segment_report(layout: MemoryLayout, threshold: Threshold) -> Seq<u8> {
    segment_line(Severity::Trace, layout.text, threshold) + segment_line(
        Severity::Debug,
        layout.rodata,
        threshold,
    ) + segment_line(Severity::Info, layout.data, threshold) + segment_line(
        Severity::Warn,
        layout.stack,
        threshold,
    ) + segment_line(Severity::Error, layout.bss, threshold)
}

/// Everything one boot writes to the console: the greeting, the filtered
/// segment reports, and — only when firmware fails to honor shutdown — the
/// gateway's own escalated fault line.
pub open spec fn boot_transcript(
    layout: MemoryLayout,
    config: Option<&str>,
    firmware_honors_shutdown: bool,
) -> Seq<u8> {
    greeting() + segment_report(layout, threshold_of_config(config)) + if firmware_honors_shutdown {
        Seq::empty()
    } else {
        panic_line((FaultContext { location: None, message: "System shutdown!" }))
    }
}

/// Zero every byte of the uninitialized-data segment `[start, end)`. Must
/// complete before any global state living in that segment is touched.
pub fn clear_bss(m: &mut Machine, bss: &Segment)
    requires
        !old(m).halted,
        bss.wf(),
        bss.end <= old(m).mem@.len(),
    ensures
        final(m).mem@.len() == old(m).mem@.len(),
        forall|a: int| bss.start <= a < bss.end ==> final(m).mem@[a] == 0,
        forall|a: int|
            0 <= a < old(m).mem@.len() && !(bss.start <= a < bss.end) ==> final(m).mem@[a] == old(m).mem@[a],
        final(m).console@ == old(m).console@,
        !final(m).halted,
        final(m).shutdown_requests == old(m).shutdown_requests,
        final(m).firmware_honors_shutdown == old(m).firmware_honors_shutdown,
{
    let mut a: usize = bss.start;
    while a < bss.end
        invariant
            bss.start <= a <= bss.end,
            bss.end <= m.mem@.len(),
            m.mem@.len() == old(m).mem@.len(),
            forall|j: int| bss.start <= j < a ==> m.mem@[j] == 0,
            forall|j: int|
                0 <= j < old(m).mem@.len() && !(bss.start <= j < a) ==> m.mem@[j] == old(m).mem@[j],
            m.console@ == old(m).console@,
            !m.halted,
            m.shutdown_requests == old(m).shutdown_requests,
            m.firmware_honors_shutdown == old(m).firmware_honors_shutdown,
        decreases bss.end - a,
    {
        m.mem[a] = 0;
        a = a + 1;
    }
}

/// Report one segment at one severity through the threshold filter.
fn log_segment(m: &mut Machine, layout: &MemoryLayout, severity: Severity, seg: &Segment)
    requires
        layout.wf(old(m).mem@.len()),
        !old(m).halted,
    ensures
        final(m).console@ == old(m).console@ + segment_line(
            severity,
            *seg,
            logger_threshold(*old(m), *layout),
        ),
        only_console_changed(*old(m), *final(m)),
{
    let threshold = Threshold::from_code(m.mem[layout.logger_addr + 1]);
    if enabled(severity, threshold) {
        print_line_prefix(m, severity);
        print_str(m, "[kernel] ");
        print_str(m, seg.name.as_str());
        print_str(m, " [");
        print_hex(m, seg.start);
        print_str(m, ", ");
        print_hex(m, seg.end);
        print_str(m, ")");
        print_str(m, "\u{1B}[0m\n");
        assert(final(m).console@ =~= old(m).console@ + log_line(severity, segment_message(*seg)));
    }
}

/// Emit the five segment reports in their fixed call order: `Trace` for the
/// code segment, `Debug` for read-only data, `Info` for initialized data,
/// `Warn` for the boot stack, `Error` for the uninitialized-data segment.
/// This doubles as a self-test exercising every severity path and the
/// threshold filter.
pub fn report_segments(m: &mut Machine, layout: &MemoryLayout)
    requires
        layout.wf(old(m).mem@.len()),
        !old(m).halted,
    ensures
        final(m).console@ == old(m).console@ + segment_report(
            *layout,
            logger_threshold(*old(m), *layout),
        ),
        only_console_changed(*old(m), *final(m)),
{
    log_segment(m, layout, Severity::Trace, &layout.text);
    log_segment(m, layout, Severity::Debug, &layout.rodata);
    log_segment(m, layout, Severity::Info, &layout.data);
    log_segment(m, layout, Severity::Warn, &layout.stack);
    log_segment(m, layout, Severity::Error, &layout.bss);
    assert(final(m).console@ =~= old(m).console@ + segment_report(
        *layout,
        logger_threshold(*old(m), *layout),
    ));
}

/// The kernel entry point after the assembly stub: run the ordered boot
/// phases and hand the machine back to firmware. The machine is halted when
/// this returns; the sequencer never regains control after its shutdown
/// request.
pub fn rust_main(m: &mut Machine, layout: &MemoryLayout, config: Option<&str>)
    requires
        layout.wf(old(m).mem@.len()),
        !old(m).halted,
        old(m).shutdown_requests + 1 < u64::MAX,
    ensures
        final(m).halted,
        final(m).console@ == old(m).console@ + boot_transcript(
            *layout,
            config,
            old(m).firmware_honors_shutdown,
        ),
        final(m).mem@.len() == old(m).mem@.len(),
        logger_initialized(*final(m), *layout),
        logger_threshold(*final(m), *layout) == threshold_of_config(config),
        forall|a: int|
            layout.bss.start <= a < layout.bss.end && a != layout.logger_addr && a
                != layout.logger_addr + 1 ==> final(m).mem@[a] == 0,
        forall|a: int|
            0 <= a < old(m).mem@.len() && !(layout.bss.start <= a < layout.bss.end) ==> final(m).mem@[a] == old(m).mem@[a],
        final(m).shutdown_requests == old(m).shutdown_requests + (if old(m).firmware_honors_shutdown {
            1int
        } else {
            2int
        }),
        final(m).firmware_honors_shutdown == old(m).firmware_honors_shutdown,
{
    clear_bss(m, &layout.bss);
    crate::logging::init(m, layout, config);
    print_str(m, "[kernel] Hello, world!\n");
    report_segments(m, layout);
    shutdown(m);
    assert(final(m).console@ =~= old(m).console@ + boot_transcript(
        *layout,
        config,
        old(m).firmware_honors_shutdown,
    ));
}

} // verus!
