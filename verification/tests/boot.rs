use os::boot::clear_bss;
use os::boot::report_segments;
use os::boot::rust_main;
use os::logging::Severity;
use os::logging::init;
use os::logging::log;
use os::machine::Machine;
use os::machine::MemoryLayout;
use os::machine::Segment;

fn fresh_machine(fill: u8, honors_shutdown: bool) -> Machine {
    Machine {
        mem: vec![fill; 64],
        console: Vec::new(),
        shutdown_requests: 0,
        halted: false,
        firmware_honors_shutdown: honors_shutdown,
    }
}

fn seg(name: &str, start: usize, end: usize) -> Segment {
    Segment { name: name.to_string(), start, end }
}

fn layout() -> MemoryLayout {
    MemoryLayout {
        text: seg(".text", 0x80200000, 0x80204000),
        rodata: seg(".rodata", 0x80204000, 0x80205000),
        data: seg(".data", 0x80205000, 0x80206000),
        stack: seg("boot_stack", 0x80206000, 0x80216000),
        bss: seg(".bss", 8, 40),
        logger_addr: 20,
    }
}

fn colored_line(color: u32, label: &str, message: &str) -> String {
    format!("\u{1B}[{}m[{}] {}\u{1B}[0m\n", color, label, message)
}

fn segment_text(name: &str, start: usize, end: usize) -> String {
    format!("[kernel] {} [{:#x}, {:#x})", name, start, end)
}

const GREETING: &str = "[kernel] Hello, world!\n";

#[test]
fn boot_with_debug_threshold_emits_greeting_then_debug_to_error() {
    let mut m = fresh_machine(0xAB, true);
    let l = layout();
    rust_main(&mut m, &l, Some("DEBUG"));

    let mut expected = String::new();
    expected.push_str(GREETING);
    // Trace is suppressed under the DEBUG threshold; the rest follow in
    // call order.
    expected.push_str(&colored_line(32, "DEBUG", &segment_text(".rodata", 0x80204000, 0x80205000)));
    expected.push_str(&colored_line(34, " INFO", &segment_text(".data", 0x80205000, 0x80206000)));
    expected.push_str(&colored_line(93, " WARN", &segment_text("boot_stack", 0x80206000, 0x80216000)));
    expected.push_str(&colored_line(31, "ERROR", &segment_text(".bss", 8, 40)));

    assert_eq!(m.console, expected.as_bytes().to_vec());
    assert_eq!(m.shutdown_requests, 1);
    assert!(m.halted);
}

#[test]
fn boot_with_unset_config_emits_only_greeting() {
    let mut m = fresh_machine(0xAB, true);
    let l = layout();
    rust_main(&mut m, &l, None);

    assert_eq!(m.console, GREETING.as_bytes().to_vec());
    assert_eq!(m.shutdown_requests, 1);
    assert!(m.halted);
}

#[test]
fn boot_with_unrecognized_config_emits_only_greeting() {
    let mut m = fresh_machine(0xAB, true);
    let l = layout();
    // Case-sensitive exact match: a lowercase name is unrecognized.
    rust_main(&mut m, &l, Some("debug"));

    assert_eq!(m.console, GREETING.as_bytes().to_vec());
    assert_eq!(m.shutdown_requests, 1);
    assert!(m.halted);
}

#[test]
fn segment_reports_follow_call_order_not_severity_order() {
    let mut m = fresh_machine(0, true);
    let l = layout();
    clear_bss(&mut m, &l.bss);
    init(&mut m, &l, Some("TRACE"));
    report_segments(&mut m, &l);

    let trace = colored_line(90, "TRACE", &segment_text(".text", 0x80200000, 0x80204000));
    let debug = colored_line(32, "DEBUG", &segment_text(".rodata", 0x80204000, 0x80205000));
    let info = colored_line(34, " INFO", &segment_text(".data", 0x80205000, 0x80206000));
    let warn = colored_line(93, " WARN", &segment_text("boot_stack", 0x80206000, 0x80216000));
    let error = colored_line(31, "ERROR", &segment_text(".bss", 8, 40));

    let call_order = format!("{}{}{}{}{}", trace, debug, info, warn, error);
    let severity_order = format!("{}{}{}{}{}", error, warn, info, debug, trace);

    assert_eq!(m.console, call_order.as_bytes().to_vec());
    // A test asserting severity-sorted output must fail.
    assert_ne!(m.console, severity_order.as_bytes().to_vec());
}

#[test]
fn zero_fill_zeroes_exactly_the_segment() {
    let mut m = fresh_machine(0xFF, true);
    let l = layout();
    clear_bss(&mut m, &l.bss);

    for a in 0..m.mem.len() {
        if (8..40).contains(&a) {
            assert_eq!(m.mem[a], 0, "address {} inside [bss_start, bss_end) must read 0", a);
        } else {
            assert_eq!(m.mem[a], 0xFF, "address {} outside the segment must be untouched", a);
        }
    }
    assert!(m.console.is_empty());
    assert!(!m.halted);
}

#[test]
fn logger_defaults_to_silent_after_zero_fill() {
    let mut m = fresh_machine(0xFF, true);
    let l = layout();
    clear_bss(&mut m, &l.bss);
    // No writes after zero-fill and before logger init: the logger's
    // storage is all-zero, so even the most severe record is filtered.
    log(&mut m, &l, Severity::Error, "must not appear");
    assert!(m.console.is_empty());
}

#[test]
fn declined_shutdown_escalates_once_and_halts() {
    let mut m = fresh_machine(0xAB, false);
    let l = layout();
    rust_main(&mut m, &l, None);

    let expected = format!("{}[kernel] Panicked: System shutdown!\n", GREETING);
    assert_eq!(m.console, expected.as_bytes().to_vec());
    // The original request plus the terminator's single retry, then the
    // unconditional halt: exactly two requests, no unbounded recursion.
    assert_eq!(m.shutdown_requests, 2);
    assert!(m.halted);
}
