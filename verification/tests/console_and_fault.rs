use os::console::print_dec;
use os::console::print_hex;
use os::console::print_str;
use os::fault::FaultContext;
use os::fault::terminate;
use os::machine::Machine;
use os::sbi::SBI_CONSOLE_PUTCHAR;
use os::sbi::SBI_SHUTDOWN;
use os::sbi::console_putchar;
use os::sbi::sbi_call;
use os::sbi::shutdown;

fn fresh_machine(honors_shutdown: bool) -> Machine {
    Machine {
        mem: vec![0; 16],
        console: Vec::new(),
        shutdown_requests: 0,
        halted: false,
        firmware_honors_shutdown: honors_shutdown,
    }
}

#[test]
fn fault_with_location_renders_file_line_and_message() {
    let mut m = fresh_machine(true);
    terminate(&mut m, FaultContext { location: Some(("a.rs", 10)), message: "x" });
    assert_eq!(m.console, "[kernel] Panicked at a.rs:10 x\n".as_bytes().to_vec());
    assert!(m.halted);
    assert_eq!(m.shutdown_requests, 1);
}

#[test]
fn fault_without_location_renders_message_alone() {
    let mut m = fresh_machine(true);
    terminate(&mut m, FaultContext { location: None, message: "x" });
    assert_eq!(m.console, "[kernel] Panicked: x\n".as_bytes().to_vec());
    assert!(m.halted);
    assert_eq!(m.shutdown_requests, 1);
}

#[test]
fn fault_halts_even_when_firmware_declines_shutdown() {
    let mut m = fresh_machine(false);
    terminate(&mut m, FaultContext { location: None, message: "x" });
    assert_eq!(m.console, "[kernel] Panicked: x\n".as_bytes().to_vec());
    assert!(m.halted, "the terminator is terminal no matter what firmware does");
    assert_eq!(m.shutdown_requests, 1);
}

#[test]
fn honored_shutdown_halts_silently_after_one_request() {
    let mut m = fresh_machine(true);
    shutdown(&mut m);
    assert!(m.console.is_empty());
    assert_eq!(m.shutdown_requests, 1);
    assert!(m.halted);
}

#[test]
fn declined_shutdown_raises_the_gateway_fault() {
    let mut m = fresh_machine(false);
    shutdown(&mut m);
    assert_eq!(m.console, "[kernel] Panicked: System shutdown!\n".as_bytes().to_vec());
    assert_eq!(m.shutdown_requests, 2);
    assert!(m.halted);
}

#[test]
fn putchar_appends_one_byte() {
    let mut m = fresh_machine(true);
    console_putchar(&mut m, b'A' as usize);
    console_putchar(&mut m, b'\n' as usize);
    assert_eq!(m.console, b"A\n".to_vec());
    assert!(!m.halted);
}

#[test]
fn putchar_keeps_only_the_low_byte() {
    let mut m = fresh_machine(true);
    console_putchar(&mut m, 0x141);
    assert_eq!(m.console, vec![0x41]);
}

#[test]
fn gateway_console_service_returns_success() {
    let mut m = fresh_machine(true);
    let ret = sbi_call(&mut m, SBI_CONSOLE_PUTCHAR, b'x' as usize, 0, 0);
    assert_eq!(ret, 0);
    assert_eq!(m.console, b"x".to_vec());
}

#[test]
fn gateway_refuses_unknown_service_without_effect() {
    let mut m = fresh_machine(true);
    let before_mem = m.mem.clone();
    sbi_call(&mut m, 99, 1, 2, 3);
    assert!(m.console.is_empty());
    assert_eq!(m.mem, before_mem);
    assert_eq!(m.shutdown_requests, 0);
    assert!(!m.halted);
}

#[test]
fn shutdown_service_counts_requests() {
    let mut m = fresh_machine(true);
    sbi_call(&mut m, SBI_SHUTDOWN, 0, 0, 0);
    assert_eq!(m.shutdown_requests, 1);
    assert!(m.halted);
    assert!(m.console.is_empty());
}

#[test]
fn print_str_writes_the_exact_bytes() {
    let mut m = fresh_machine(true);
    print_str(&mut m, "[kernel] Hello, world!\n");
    assert_eq!(m.console, "[kernel] Hello, world!\n".as_bytes().to_vec());
}

#[test]
fn print_dec_renders_decimal() {
    for n in [0u64, 7, 10, 31, 90, 93, 12345, u64::MAX] {
        let mut m = fresh_machine(true);
        print_dec(&mut m, n);
        assert_eq!(m.console, format!("{}", n).as_bytes().to_vec());
    }
}

#[test]
fn print_hex_renders_prefixed_lowercase_hex() {
    for n in [0usize, 1, 15, 16, 255, 0x80200000, usize::MAX] {
        let mut m = fresh_machine(true);
        print_hex(&mut m, n);
        assert_eq!(m.console, format!("{:#x}", n).as_bytes().to_vec());
    }
}
