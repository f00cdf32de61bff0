//! The one-line summary the workload emits: the iteration count, the digest
//! in lowercase hexadecimal, and the elapsed time in milliseconds with three
//! decimal places.

use vstd::prelude::*;
use vstd::string::StringExecFns;

verus! {

/// The character for a decimal digit value.
pub open spec fn digit_char(d: nat) -> char
    recommends
        d < 10,
{
    ((d + 48) as u8) as char
}

/// The decimal rendering of a number, no leading zeros (a single `0` for 0).
pub open spec fn dec_chars(n: nat) -> Seq<char>
    decreases n,
{
    if n < 10 {
        seq![digit_char(n)]
    } else {
        dec_chars(n / 10).push(digit_char(n % 10))
    }
}

/// The character for a hex digit value: `0`-`9`, then lowercase `a`-`f`.
pub open spec fn hex_digit_char(d: u8) -> char
    recommends
        d < 16,
{
    if d < 10 {
        ((d + 48) as u8) as char
    } else {
        ((d + 87) as u8) as char
    }
}

/// Lowercase hexadecimal rendering: two digits per byte, high nibble first.
pub open spec fn hex_chars(bytes: Seq<u8>) -> Seq<char>
    decreases bytes.len(),
{
    if bytes.len() == 0 {
        Seq::empty()
    } else {
        seq![hex_digit_char(bytes.first() / 16), hex_digit_char(bytes.first() % 16)]
            + hex_chars(bytes.drop_first())
    }
}

/// The milliseconds fraction: exactly three digits, leading zeros kept.
pub open spec fn frac3_chars(m: nat) -> Seq<char>
    recommends
        m < 1000,
{
    seq![digit_char(m / 100 % 10), digit_char(m / 10 % 10), digit_char(m % 10)]
}

/// The whole report line for an iteration count, a digest, and an elapsed
/// time given in microseconds: `iterations=<n> digest=<hex> elapsed_ms=<ms>`,
/// the milliseconds with three decimal places.
pub open spec fn report_chars(iterations: u64, digest: Seq<u8>, elapsed_micros: u64) -> Seq<
    char,
> {
    "iterations="@ + dec_chars(iterations as nat) + " digest="@ + hex_chars(digest)
        + " elapsed_ms="@ + dec_chars((elapsed_micros / 1000) as nat) + "."@ + frac3_chars(
        (elapsed_micros % 1000) as nat,
    )
}

/// A character some hex digit value renders to.
pub open spec fn is_hex_char(c: char) -> bool {
    exists|d: u8| d < 16 && c == hex_digit_char(d)
}

/// The digest field holds exactly two lowercase hexadecimal characters per
/// digest byte: 64 characters for a 32-byte digest.
pub proof fn lemma_hex_chars_form(bytes: Seq<u8>)
    ensures
        hex_chars(bytes).len() == 2 * bytes.len(),
        forall|i: int| 0 <= i < hex_chars(bytes).len() ==> is_hex_char(#[trigger] hex_chars(bytes)[i]),
    decreases bytes.len(),
{
    if bytes.len() > 0 {
        lemma_hex_chars_form(bytes.drop_first());
        let hi = (bytes.first() / 16) as u8;
        let lo = (bytes.first() % 16) as u8;
        assert(hi < 16 && hex_chars(bytes)[0] == hex_digit_char(hi));
        assert(lo < 16 && hex_chars(bytes)[1] == hex_digit_char(lo));
    }
}

/// Relies on String::push: appends one character at the end.
#[verifier::external_body]
fn push_char(out: &mut String, c: char)
    ensures
        final(out)@ == old(out)@.push(c),
{
    out.push(c);
}

/// Append the decimal digit character for `d`.
fn push_digit(out: &mut String, d: u64)
    requires
        d < 10,
    ensures
        final(out)@ == old(out)@.push(digit_char(d as nat)),
{
    let b: u8 = (d as u8) + 48;
    push_char(out, b as char);
}

/// Append the decimal rendering of `n`.
fn push_dec(out: &mut String, n: u64)
    ensures
        final(out)@ == old(out)@ + dec_chars(n as nat),
    decreases n,
{
    if n >= 10 {
        push_dec(out, n / 10);
    }
    push_digit(out, n % 10);
    assert(out@ =~= old(out)@ + dec_chars(n as nat));
}

/// Append the lowercase hex digit character for `d`.
fn push_hex_digit(out: &mut String, d: u8)
    requires
        d < 16,
    ensures
        final(out)@ == old(out)@.push(hex_digit_char(d)),
{
    if d < 10 {
        push_char(out, (d + 48) as char);
    } else {
        push_char(out, (d + 87) as char);
    }
}

/// Append the lowercase hexadecimal rendering of `bytes`.
fn push_hex(out: &mut String, bytes: &Vec<u8>)
    ensures
        final(out)@ == old(out)@ + hex_chars(bytes@),
{
    let len = bytes.len();
    let mut i: usize = 0;
    assert(bytes@.skip(0) == bytes@);
    while i < len
        invariant
            i <= len,
            len == bytes@.len(),
            old(out)@ + hex_chars(bytes@) == out@ + hex_chars(bytes@.skip(i as int)),
        decreases len - i,
    {
        let b = bytes[i];
        push_hex_digit(out, b / 16);
        push_hex_digit(out, b % 16);
        proof {
            let rest = bytes@.skip(i as int);
            assert(rest.first() == bytes@[i as int]);
            assert(rest.drop_first() =~= bytes@.skip(i + 1));
            assert(out@ + hex_chars(bytes@.skip(i + 1)) =~= old(out)@ + hex_chars(bytes@));
        }
        i = i + 1;
    }
    assert(bytes@.skip(len as int) =~= Seq::<u8>::empty());
    assert(out@ =~= old(out)@ + hex_chars(bytes@));
}

/// The lowercase hexadecimal rendering of `bytes` as a string.
pub fn to_hex(bytes: &Vec<u8>) -> (s: String)
    ensures
        s@ == hex_chars(bytes@),
{
    let mut out = String::new();
    push_hex(&mut out, bytes);
    assert(out@ =~= hex_chars(bytes@));
    out
}

/// Render the report line: the iteration count, the digest in lowercase hex,
/// and the elapsed milliseconds with exactly three decimal places.
pub fn format_report(iterations: u64, digest: &Vec<u8>, elapsed_micros: u64) -> (line: String)
    ensures
        line@ == report_chars(iterations, digest@, elapsed_micros),
{
    let mut out = String::from_str("iterations=");
    push_dec(&mut out, iterations);
    out.append(" digest=");
    push_hex(&mut out, digest);
    out.append(" elapsed_ms=");
    push_dec(&mut out, elapsed_micros / 1000);
    out.append(".");
    let m = elapsed_micros % 1000;
    push_digit(&mut out, m / 100 % 10);
    push_digit(&mut out, m / 10 % 10);
    push_digit(&mut out, m % 10);
    assert(out@ =~= report_chars(iterations, digest@, elapsed_micros));
    out
}

} // verus!
