//! The diagnostic logging facility.
//!
//! Five ordered severities, most to least severe: `Error`, `Warn`, `Info`,
//! `Debug`, `Trace`. The logger singleton is process-wide state — a minimum
//! severity threshold — stored in two bytes of the uninitialized-data
//! segment, set exactly once during boot and read-only afterward. A record
//! passes the filter iff its severity is at or above the threshold; a record
//! that passes renders as exactly one line, colored by severity, written
//! synchronously to the console in call order.

use vstd::prelude::*;

use crate::console::dec_digits;
use crate::console::lemma_dec_digits_no_newline;
use crate::console::lemma_newline_count_concat;
use crate::console::lemma_newline_count_single;
use crate::console::newline_count;
use crate::console::print_dec;
use crate::console::print_str;
use crate::machine::Machine;
use crate::machine::MemoryLayout;
use crate::machine::only_console_changed;

verus! {

use vstd::string::StringSliceAdditionalSpecFns;
use vstd::string::is_ascii_spec_bytes;

/// One diagnostic record's severity, most severe first.
#[derive(Clone, Copy, PartialEq, Eq, Structural, Debug)]
pub enum Severity {
    Error,
    Warn,
    Info,
    Debug,
    Trace,
}

/// The logger's minimum-severity threshold. `Off` admits nothing; each
/// other value admits records at or above that severity.
#[derive(Clone, Copy, PartialEq, Eq, Structural, Debug)]
pub enum Threshold {
    Off,
    Error,
    Warn,
    Info,
    Debug,
    Trace,
}

impl Severity {
    /// Numeric rank: 1 for `Error` (most severe) up to 5 for `Trace`.
    pub open spec fn rank(self) -> int {
        match self {
            Severity::Error => 1,
            Severity::Warn => 2,
            Severity::Info => 3,
            Severity::Debug => 4,
            Severity::Trace => 5,
        }
    }

    /// The ANSI color selected by this severity.
    pub open spec fn color_code(self) -> nat {
        match self {
            Severity::Error => 31,  // red
            Severity::Warn => 93,  // bright yellow
            Severity::Info => 34,  // blue
            Severity::Debug => 32,  // green
            Severity::Trace => 90,  // bright black
        }
    }

    /// The level name, right-aligned to five characters.
    pub open spec fn label_bytes(self) -> Seq<u8> {
        match self {
            Severity::Error => "ERROR".spec_bytes(),
            Severity::Warn => " WARN".spec_bytes(),
            Severity::Info => " INFO".spec_bytes(),
            Severity::Debug => "DEBUG".spec_bytes(),
            Severity::Trace => "TRACE".spec_bytes(),
        }
    }

    /// The rank as a machine value.
    pub fn rank_value(self) -> (r: u8)
        ensures
            r as int == self.rank(),
    {
        match self {
            Severity::Error => 1,
            Severity::Warn => 2,
            Severity::Info => 3,
            Severity::Debug => 4,
            Severity::Trace => 5,
        }
    }

    /// The ANSI color as a machine value.
    pub fn color(self) -> (c: u8)
        ensures
            c as nat == self.color_code(),
    {
        match self {
            Severity::Error => 31,
            Severity::Warn => 93,
            Severity::Info => 34,
            Severity::Debug => 32,
            Severity::Trace => 90,
        }
    }

    /// The level name, right-aligned to five characters.
    pub fn label(self) -> (r: &'static str)
        ensures
            r.spec_bytes() == self.label_bytes(),
    {
        match self {
            Severity::Error => "ERROR",
            Severity::Warn => " WARN",
            Severity::Info => " INFO",
            Severity::Debug => "DEBUG",
            Severity::Trace => "TRACE",
        }
    }
}

impl Threshold {
    /// Numeric rank: 0 for `Off`, otherwise the rank of the severity.
    pub open spec fn rank(self) -> int {
        match self {
            Threshold::Off => 0,
            Threshold::Error => 1,
            Threshold::Warn => 2,
            Threshold::Info => 3,
            Threshold::Debug => 4,
            Threshold::Trace => 5,
        }
    }

    /// How the threshold is stored in the logger singleton's second byte.
    pub open spec fn code(self) -> u8 {
        self.rank() as u8
    }

    /// The rank as a machine value.
    pub fn rank_value(self) -> (r: u8)
        ensures
            r as int == self.rank(),
    {
        match self {
            Threshold::Off => 0,
            Threshold::Error => 1,
            Threshold::Warn => 2,
            Threshold::Info => 3,
            Threshold::Debug => 4,
            Threshold::Trace => 5,
        }
    }

    /// Encode the threshold for the logger singleton's storage.
    pub fn to_code(self) -> (b: u8)
        ensures
            b == self.code(),
    {
        self.rank_value()
    }

    /// Decode one storage byte. Total: a byte no encoding produces — in
    /// particular still-zeroed storage — reads as `Off`.
    pub fn from_code(b: u8) -> (t: Threshold)
        ensures
            t == threshold_from_code(b),
    {
        match b {
            1 => Threshold::Error,
            2 => Threshold::Warn,
            3 => Threshold::Info,
            4 => Threshold::Debug,
            5 => Threshold::Trace,
            _ => Threshold::Off,
        }
    }
}

/// What one storage byte decodes to.
pub open spec fn threshold_from_code(b: u8) -> Threshold {
    if b == 1 {
        Threshold::Error
    } else if b == 2 {
        Threshold::Warn
    } else if b == 3 {
        Threshold::Info
    } else if b == 4 {
        Threshold::Debug
    } else if b == 5 {
        Threshold::Trace
    } else {
        Threshold::Off
    }
}

/// Decoding inverts encoding: the threshold survives its storage.
pub proof fn lemma_threshold_code_roundtrip(t: Threshold)
    ensures
        threshold_from_code(t.code()) == t,
{
}

/// The threshold filter: a record is forwarded iff its severity is at or
/// above the threshold. Acceptance is otherwise universal — no per-record
/// predicate beyond this rank comparison.
pub open spec fn passes(severity: Severity, threshold: Threshold) -> bool {
    severity.rank() <= threshold.rank()
}

/// Whether a record at `severity` would be forwarded under `threshold`.
pub fn enabled(severity: Severity, threshold: Threshold) -> (r: bool)
    ensures
        r == passes(severity, threshold),
{
    severity.rank_value() <= threshold.rank_value()
}

/// Whether the logger singleton's one-shot initialization has happened:
/// its first storage byte is its guard flag.
pub open spec fn logger_initialized(m: Machine, layout: MemoryLayout) -> bool {
    m.mem@[layout.logger_addr as int] != 0
}

/// The threshold the logger singleton's storage currently holds.
pub open spec fn logger_threshold(m: Machine, layout: MemoryLayout) -> Threshold {
    threshold_from_code(m.mem@[layout.logger_addr + 1])
}

/// Still-zeroed logger storage is the logger's default state: the one-shot
/// guard is down and the threshold reads as `Off`, so nothing is forwarded
/// until the logger is explicitly configured.
pub proof fn lemma_zeroed_logger_is_default(m: Machine, layout: MemoryLayout)
    requires
        layout.wf(m.mem@.len()),
        forall|a: int|
            layout.bss.start <= a < layout.bss.end ==> m.mem@[a] == 0,
    ensures
        !logger_initialized(m, layout),
        logger_threshold(m, layout) == Threshold::Off,
{
}

/// What the build-time configuration value selects: exactly one of the five
/// case-sensitive level names names its threshold; an unset or unrecognized
/// value disables output entirely.
pub open spec fn threshold_of_config(config: Option<&str>) -> Threshold {
    match config {
        Option::None => Threshold::Off,
        Option::Some(s) => if s.spec_bytes() == "ERROR".spec_bytes() {
            Threshold::Error
        } else if s.spec_bytes() == "WARN".spec_bytes() {
            Threshold::Warn
        } else if s.spec_bytes() == "INFO".spec_bytes() {
            Threshold::Info
        } else if s.spec_bytes() == "DEBUG".spec_bytes() {
            Threshold::Debug
        } else if s.spec_bytes() == "TRACE".spec_bytes() {
            Threshold::Trace
        } else {
            Threshold::Off
        },
    }
}

/// Resolve the build-time configuration value to a threshold.
pub fn parse_threshold(config: Option<&str>) -> (t: Threshold)
    ensures
        t == threshold_of_config(config),
{
    match config {
        Option::None => Threshold::Off,
        Option::Some(s) => {
            let b = s.as_bytes();
            if bytes_eq(b, "ERROR".as_bytes()) {
                Threshold::Error
            } else if bytes_eq(b, "WARN".as_bytes()) {
                Threshold::Warn
            } else if bytes_eq(b, "INFO".as_bytes()) {
                Threshold::Info
            } else if bytes_eq(b, "DEBUG".as_bytes()) {
                Threshold::Debug
            } else if bytes_eq(b, "TRACE".as_bytes()) {
                Threshold::Trace
            } else {
                Threshold::Off
            }
        },
    }
}

/// Byte-for-byte comparison of two slices.
fn bytes_eq(a: &[u8], b: &[u8]) -> (r: bool)
    ensures
        r == (a@ == b@),
{
    if a.len() != b.len() {
        return false;
    }
    let mut i: usize = 0;
    while i < a.len()
        invariant
            i <= a@.len(),
            a@.len() == b@.len(),
            forall|j: int| 0 <= j < i ==> a@[j] == b@[j],
        decreases a@.len() - i,
    {
        if a[i] != b[i] {
            return false;
        }
        i = i + 1;
    }
    proof {
        assert(a@ =~= b@);
    }
    true
}

/// The color prefix, bracketed level name and separator that open a
/// forwarded record's line.
pub open spec fn line_prefix(severity: Severity) -> Seq<u8> {
    "\u{1B}[".spec_bytes() + dec_digits(severity.color_code()) + "m[".spec_bytes()
        + severity.label_bytes() + "] ".spec_bytes()
}

/// The color reset and line break that close a forwarded record's line.
pub open spec fn line_suffix() -> Seq<u8> {
    "\u{1B}[0m\n".spec_bytes()
}

/// The one line a forwarded record renders as: color prefix, the level name
/// right-aligned to five characters in brackets, the message, color reset.
pub open spec fn log_line(severity: Severity, message: Seq<u8>) -> Seq<u8> {
    line_prefix(severity) + message + line_suffix()
}

/// Initialize the logging facility: raise the one-shot guard and store the
/// threshold the build-time configuration selects. Must run after the
/// uninitialized-data segment is zeroed — the singleton's storage lives
/// there, and zeroing afterwards would silently erase it — which is why a
/// still-raised guard is refused.
pub fn init(m: &mut Machine, layout: &MemoryLayout, config: Option<&str>)
    requires
        layout.wf(old(m).mem@.len()),
        !old(m).halted,
        !logger_initialized(*old(m), *layout),
    ensures
        logger_initialized(*final(m), *layout),
        logger_threshold(*final(m), *layout) == threshold_of_config(config),
        final(m).mem@.len() == old(m).mem@.len(),
        final(m).mem@[layout.logger_addr as int] == 1,
        final(m).mem@[layout.logger_addr + 1] == threshold_of_config(config).code(),
        forall|a: int|
            0 <= a < old(m).mem@.len() && a != layout.logger_addr && a != layout.logger_addr + 1
                ==> final(m).mem@[a] == old(m).mem@[a],
        final(m).console@ == old(m).console@,
        !final(m).halted,
        final(m).shutdown_requests == old(m).shutdown_requests,
        final(m).firmware_honors_shutdown == old(m).firmware_honors_shutdown,
{
    let t = parse_threshold(config);
    m.mem.set(layout.logger_addr, 1);
    m.mem.set(layout.logger_addr + 1, t.to_code());
    proof {
        lemma_threshold_code_roundtrip(t);
    }
}

/// Forward one record: render it as one line iff its severity passes the
/// stored threshold, and otherwise emit nothing. Output is synchronous and
/// in call order; the record itself is never stored.
pub fn log(m: &mut Machine, layout: &MemoryLayout, severity: Severity, message: &str)
    requires
        layout.wf(old(m).mem@.len()),
        !old(m).halted,
    ensures
        passes(severity, logger_threshold(*old(m), *layout)) ==> final(m).console@ == old(
            m,
        ).console@ + log_line(severity, message.spec_bytes()),
        !passes(severity, logger_threshold(*old(m), *layout)) ==> final(m).console@ == old(
            m,
        ).console@,
        only_console_changed(*old(m), *final(m)),
{
    let threshold = Threshold::from_code(m.mem[layout.logger_addr + 1]);
    if enabled(severity, threshold) {
        print_line_prefix(m, severity);
        print_str(m, message);
        print_str(m, "\u{1B}[0m\n");
        assert(final(m).console@ =~= old(m).console@ + log_line(severity, message.spec_bytes()));
    }
}

/// Flush the logging facility: a no-op, since every record is written
/// synchronously at call time — there is nothing buffered to write.
pub fn flush(m: &mut Machine)
    ensures
        final(m).console@ == old(m).console@,
        only_console_changed(*old(m), *final(m)),
{
    let _ = m;
}

/// Write a record line's opening: escape, color, bracketed level name.
pub(crate) fn print_line_prefix(m: &mut Machine, severity: Severity)
    requires
        !old(m).halted,
    ensures
        final(m).console@ == old(m).console@ + line_prefix(severity),
        only_console_changed(*old(m), *final(m)),
{
    print_str(m, "\u{1B}[");
    print_dec(m, severity.color() as u64);
    print_str(m, "m[");
    print_str(m, severity.label());
    print_str(m, "] ");
    assert(final(m).console@ =~= old(m).console@ + line_prefix(severity));
}

/// A byte sequence free of newlines counts none.
proof fn lemma_no_newline_bytes(s: Seq<u8>)
    requires
        forall|i: int| 0 <= i < s.len() ==> s[i] != '\n' as u8,
    ensures
        newline_count(s) == 0,
    decreases s.len(),
{
    if s.len() > 0 {
        lemma_no_newline_bytes(s.drop_last());
    }
}

/// A record whose message holds no line break renders as exactly one output
/// line: the rendering holds exactly one newline, and it is the last byte.
pub proof fn lemma_log_line_is_one_line(severity: Severity, message: Seq<u8>)
    requires
        newline_count(message) == 0,
    ensures
        newline_count(log_line(severity, message)) == 1,
        log_line(severity, message).last() == '\n' as u8,
{
    reveal_strlit("\u{1B}[");
    reveal_strlit("m[");
    reveal_strlit("] ");
    reveal_strlit("\u{1B}[0m\n");
    reveal_strlit("ERROR");
    reveal_strlit(" WARN");
    reveal_strlit(" INFO");
    reveal_strlit("DEBUG");
    reveal_strlit("TRACE");
    is_ascii_spec_bytes("\u{1B}[");
    is_ascii_spec_bytes("m[");
    is_ascii_spec_bytes("] ");
    is_ascii_spec_bytes("\u{1B}[0m\n");
    is_ascii_spec_bytes("ERROR");
    is_ascii_spec_bytes(" WARN");
    is_ascii_spec_bytes(" INFO");
    is_ascii_spec_bytes("DEBUG");
    is_ascii_spec_bytes("TRACE");
    assert("\u{1B}[".spec_bytes() =~= seq![27u8, 91u8]);
    assert("m[".spec_bytes() =~= seq![109u8, 91u8]);
    assert("] ".spec_bytes() =~= seq![93u8, 32u8]);
    assert("\u{1B}[0m\n".spec_bytes() =~= seq![27u8, 91u8, 48u8, 109u8, 10u8]);
    lemma_no_newline_bytes(seq![27u8, 91u8]);
    lemma_no_newline_bytes(seq![109u8, 91u8]);
    lemma_no_newline_bytes(seq![93u8, 32u8]);
    lemma_dec_digits_no_newline(severity.color_code());
    match severity {
        Severity::Error => {
            assert("ERROR".spec_bytes() =~= seq![69u8, 82u8, 82u8, 79u8, 82u8]);
            lemma_no_newline_bytes(severity.label_bytes());
        },
        Severity::Warn => {
            assert(" WARN".spec_bytes() =~= seq![32u8, 87u8, 65u8, 82u8, 78u8]);
            lemma_no_newline_bytes(severity.label_bytes());
        },
        Severity::Info => {
            assert(" INFO".spec_bytes() =~= seq![32u8, 73u8, 78u8, 70u8, 79u8]);
            lemma_no_newline_bytes(severity.label_bytes());
        },
        Severity::Debug => {
            assert("DEBUG".spec_bytes() =~= seq![68u8, 69u8, 66u8, 85u8, 71u8]);
            lemma_no_newline_bytes(severity.label_bytes());
        },
        Severity::Trace => {
            assert("TRACE".spec_bytes() =~= seq![84u8, 82u8, 65u8, 67u8, 69u8]);
            lemma_no_newline_bytes(severity.label_bytes());
        },
    }
    lemma_newline_count_concat(seq![27u8, 91u8, 48u8, 109u8], seq![10u8]);
    lemma_no_newline_bytes(seq![27u8, 91u8, 48u8, 109u8]);
    lemma_newline_count_single(10u8);
    assert(seq![27u8, 91u8, 48u8, 109u8] + seq![10u8] =~= seq![27u8, 91u8, 48u8, 109u8, 10u8]);
    assert(newline_count(line_suffix()) == 1);
    lemma_newline_count_concat("\u{1B}[".spec_bytes(), dec_digits(severity.color_code()));
    lemma_newline_count_concat(
        "\u{1B}[".spec_bytes() + dec_digits(severity.color_code()),
        "m[".spec_bytes(),
    );
    lemma_newline_count_concat(
        "\u{1B}[".spec_bytes() + dec_digits(severity.color_code()) + "m[".spec_bytes(),
        severity.label_bytes(),
    );
    lemma_newline_count_concat(
        "\u{1B}[".spec_bytes() + dec_digits(severity.color_code()) + "m[".spec_bytes()
            + severity.label_bytes(),
        "] ".spec_bytes(),
    );
    assert(newline_count(line_prefix(severity)) == 0);
    lemma_newline_count_concat(line_prefix(severity), message);
    lemma_newline_count_concat(line_prefix(severity) + message, line_suffix());
    assert(log_line(severity, message).last() == line_suffix().last());
}

} // verus!
