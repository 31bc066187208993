//! Rendering of the inspect-and-return line.
//!
//! The inspect operation prefixes its output with a source-location
//! annotation `[file:line]`. The annotation's shape is fixed, so it is
//! built here by verified code with an exact byte-level contract; only the
//! inspected value's own text comes from the formatting engine, and the
//! builders take that text as a plain argument.

use vstd::prelude::*;

verus! {

/// The decimal digits of `n`, most significant first.
pub open spec fn decimal_bytes(n: nat) -> Seq<u8>
    decreases n,
{
    if n < 10 {
        seq![(0x30 + n) as u8]
    } else {
        decimal_bytes(n / 10) + seq![(0x30 + n % 10) as u8]
    }
}

/// The source-location annotation: `[file:line]`.
pub open spec fn annotation_bytes(file: Seq<char>, line: nat) -> Seq<u8> {
    seq![0x5Bu8] + vstd::utf8::encode_utf8(file) + seq![0x3Au8] + decimal_bytes(line)
        + seq![0x5Du8]
}

/// The whole inspect line before its newline: `[file:line] expr = value`.
pub open spec fn inspect_bytes(
    file: Seq<char>,
    line: nat,
    expr: Seq<char>,
    value: Seq<char>,
) -> Seq<u8> {
    annotation_bytes(file, line) + seq![0x20u8] + vstd::utf8::encode_utf8(expr)
        + seq![0x20u8, 0x3Du8, 0x20u8] + vstd::utf8::encode_utf8(value)
}

/// Append every byte of the slice, in order.
fn push_all(out: &mut Vec<u8>, bytes: &[u8])
    ensures
        final(out)@ == old(out)@ + bytes@,
{
    assert(out@ =~= old(out)@ + bytes@.subrange(0, 0));
    let mut i: usize = 0;
    while i < bytes.len()
        invariant
            i <= bytes@.len(),
            out@ == old(out)@ + bytes@.subrange(0, i as int),
        decreases bytes@.len() - i,
    {
        out.push(bytes[i]);
        i = i + 1;
        assert(out@ =~= old(out)@ + bytes@.subrange(0, i as int));
    }
    assert(bytes@.subrange(0, bytes@.len() as int) =~= bytes@);
}

/// Append the decimal form of `n`.
fn push_decimal(n: u32, out: &mut Vec<u8>)
    ensures
        final(out)@ == old(out)@ + decimal_bytes(n as nat),
    decreases n,
{
    if n < 10 {
        out.push(0x30u8 + (n as u8));
        assert(out@ =~= old(out)@ + decimal_bytes(n as nat));
    } else {
        push_decimal(n / 10, out);
        out.push(0x30u8 + ((n % 10) as u8));
        assert(out@ =~= old(out)@ + decimal_bytes(n as nat));
    }
}

/// Build the source-location annotation `[file:line]`, exactly.
pub fn annotation_line(file: &str, line: u32) -> (v: Vec<u8>)
    ensures
        v@ == annotation_bytes(file@, line as nat),
{
    let mut v: Vec<u8> = Vec::new();
    v.push(0x5Bu8);
    push_all(&mut v, file.as_bytes());
    v.push(0x3Au8);
    push_decimal(line, &mut v);
    v.push(0x5Du8);
    assert(v@ =~= annotation_bytes(file@, line as nat));
    v
}

/// Build the whole inspect line `[file:line] expr = value`, exactly, for a
/// value text already rendered by the formatting engine.
pub fn inspect_line(file: &str, line: u32, expr: &str, value: &str) -> (v: Vec<u8>)
    ensures
        v@ == inspect_bytes(file@, line as nat, expr@, value@),
{
    let mut v = annotation_line(file, line);
    v.push(0x20u8);
    push_all(&mut v, expr.as_bytes());
    v.push(0x20u8);
    v.push(0x3Du8);
    v.push(0x20u8);
    push_all(&mut v, value.as_bytes());
    assert(v@ =~= inspect_bytes(file@, line as nat, expr@, value@));
    v
}

} // verus!
