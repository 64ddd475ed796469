//! Verified text output on top of the gateway's one-byte console service.
//!
//! Every printing function appends exactly the bytes its contract names to
//! the machine's console transcript and touches nothing else. Numbers are
//! rendered here as well: decimal for line numbers and color codes, and
//! `0x`-prefixed lowercase hexadecimal for segment addresses.

use vstd::prelude::*;

use crate::machine::Machine;
use crate::machine::only_console_changed;
use crate::sbi::console_putchar;

verus! {

use vstd::string::StringSliceAdditionalSpecFns;

/// The decimal digits of `n`, most significant first, as ASCII bytes.
pub open spec fn dec_digits(n: nat) -> Seq<u8>
    decreases n,
{
    if n < 10 {
        seq![('0' as u8 + n) as u8]
    } else {
        dec_digits(n / 10) + seq![('0' as u8 + n % 10) as u8]
    }
}

/// The hexadecimal digits of `n`, most significant first, lowercase,
/// without a radix prefix.
pub open spec fn hex_digits(n: nat) -> Seq<u8>
    decreases n,
{
    if n < 16 {
        seq![hex_digit(n)]
    } else {
        hex_digits(n / 16) + seq![hex_digit(n % 16)]
    }
}

/// The ASCII byte for one hexadecimal digit value below 16.
pub open spec fn hex_digit(d: nat) -> u8 {
    if d < 10 {
        ('0' as u8 + d) as u8
    } else {
        ('a' as u8 + (d - 10)) as u8
    }
}

/// A number as it appears in a segment report: `0x` then its hex digits.
pub open spec fn hex_repr(n: nat) -> Seq<u8> {
    "0x".spec_bytes() + hex_digits(n)
}

/// How many newline bytes a transcript fragment holds; a fragment forming
/// exactly one output line holds exactly one, at its end.
pub open spec fn newline_count(s: Seq<u8>) -> nat
    decreases s.len(),
{
    if s.len() == 0 {
        0
    } else {
        newline_count(s.drop_last()) + if s.last() == '\n' as u8 {
            1nat
        } else {
            0nat
        }
    }
}

/// Newline counting splits over concatenation.
pub proof fn lemma_newline_count_concat(a: Seq<u8>, b: Seq<u8>)
    ensures
        newline_count(a + b) == newline_count(a) + newline_count(b),
    decreases b.len(),
{
    if b.len() == 0 {
        assert(a + b =~= a);
    } else {
        lemma_newline_count_concat(a, b.drop_last());
        assert((a + b).drop_last() =~= a + b.drop_last());
        assert((a + b).last() == b.last());
    }
}

/// Newline count of a one-byte fragment.
pub proof fn lemma_newline_count_single(b: u8)
    ensures
        newline_count(seq![b]) == if b == '\n' as u8 {
            1nat
        } else {
            0nat
        },
{
    assert(seq![b].drop_last() =~= Seq::<u8>::empty());
    assert(newline_count(Seq::<u8>::empty()) == 0);
}

/// No decimal rendering contains a newline: every digit byte is `'0'..='9'`.
pub proof fn lemma_dec_digits_no_newline(n: nat)
    ensures
        newline_count(dec_digits(n)) == 0,
    decreases n,
{
    if n < 10 {
        lemma_newline_count_single(('0' as u8 + n) as u8);
    } else {
        lemma_dec_digits_no_newline(n / 10);
        lemma_newline_count_concat(dec_digits(n / 10), seq![('0' as u8 + n % 10) as u8]);
        lemma_newline_count_single(('0' as u8 + n % 10) as u8);
    }
}

/// Write a string slice to the console, one byte at a time.
pub fn print_str(m: &mut Machine, s: &str)
    requires
        !old(m).halted,
    ensures
        final(m).console@ == old(m).console@ + s.spec_bytes(),
        only_console_changed(*old(m), *final(m)),
{
    let bytes = s.as_bytes();
    let mut i: usize = 0;
    while i < bytes.len()
        invariant
            !m.halted,
            i <= bytes@.len(),
            bytes@ == s.spec_bytes(),
            m.console@ == old(m).console@ + s.spec_bytes().take(i as int),
            only_console_changed(*old(m), *m),
        decreases bytes@.len() - i,
    {
        console_putchar(m, bytes[i] as usize);
        assert(m.console@ =~= old(m).console@ + s.spec_bytes().take(i + 1));
        i = i + 1;
    }
    assert(final(m).console@ =~= old(m).console@ + s.spec_bytes());
}

/// Write `n` in decimal.
pub fn print_dec(m: &mut Machine, n: u64)
    requires
        !old(m).halted,
    ensures
        final(m).console@ == old(m).console@ + dec_digits(n as nat),
        only_console_changed(*old(m), *final(m)),
    decreases n,
{
    if n >= 10 {
        print_dec(m, n / 10);
    }
    console_putchar(m, ('0' as u8 + (n % 10) as u8) as usize);
    assert(final(m).console@ =~= old(m).console@ + dec_digits(n as nat));
}

/// Write `n` in hexadecimal with the `0x` prefix, as addresses are reported.
pub fn print_hex(m: &mut Machine, n: usize)
    requires
        !old(m).halted,
    ensures
        final(m).console@ == old(m).console@ + hex_repr(n as nat),
        only_console_changed(*old(m), *final(m)),
{
    print_str(m, "0x");
    print_hex_digits(m, n);
    assert(final(m).console@ =~= old(m).console@ + hex_repr(n as nat));
}

/// Write the bare hexadecimal digits of `n`, most significant first.
fn print_hex_digits(m: &mut Machine, n: usize)
    requires
        !old(m).halted,
    ensures
        final(m).console@ == old(m).console@ + hex_digits(n as nat),
        only_console_changed(*old(m), *final(m)),
    decreases n,
{
    if n >= 16 {
        print_hex_digits(m, n / 16);
    }
    let d = (n % 16) as u8;
    if d < 10 {
        console_putchar(m, ('0' as u8 + d) as usize);
    } else {
        console_putchar(m, ('a' as u8 + (d - 10)) as usize);
    }
    assert(final(m).console@ =~= old(m).console@ + hex_digits(n as nat));
}

} // verus!
