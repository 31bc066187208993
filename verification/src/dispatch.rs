//! The call-site dispatch layer.
//!
//! The conventional macro spellings — print, print a line, the same to the
//! error stream, write a bare literal, inspect-and-return — become plain
//! functions here, each a stateless, one-shot composition of a fresh writer
//! with the sink. Every one is best effort: failures to write are swallowed
//! and nothing panics on the output path.

use vstd::prelude::*;

use crate::__LibCWriter;
use crate::__LIBC_STDERR;
use crate::__LIBC_STDOUT;
use crate::dbgline::annotation_line;
use crate::dbgline::inspect_line;

verus! {

/// Print to the output stream through the formatting engine.
pub fn libc_print(args: core::fmt::Arguments) {
    let mut stm = __LibCWriter::new(__LIBC_STDOUT);
    let _ = stm.write_fmt(args);
}

/// Print to the output stream through the formatting engine, then one
/// newline.
pub fn libc_println(args: core::fmt::Arguments) {
    let mut stm = __LibCWriter::new(__LIBC_STDOUT);
    let _ = stm.write_fmt(args);
    let _ = stm.write_nl();
}

/// Print to the error stream through the formatting engine.
pub fn libc_eprint(args: core::fmt::Arguments) {
    let mut stm = __LibCWriter::new(__LIBC_STDERR);
    let _ = stm.write_fmt(args);
}

/// Print to the error stream through the formatting engine, then one
/// newline.
pub fn libc_eprintln(args: core::fmt::Arguments) {
    let mut stm = __LibCWriter::new(__LIBC_STDERR);
    let _ = stm.write_fmt(args);
    let _ = stm.write_nl();
}

/// The literal fast path: a bare string to the output stream, never
/// touching the formatting engine.
pub fn libc_write(s: &str) {
    let mut stm = __LibCWriter::new(__LIBC_STDOUT);
    let _ = stm.write_str(s);
}

/// The literal fast path to the error stream.
pub fn libc_ewrite(s: &str) {
    let mut stm = __LibCWriter::new(__LIBC_STDERR);
    let _ = stm.write_str(s);
}

/// The literal fast path to the output stream, with a trailing newline.
pub fn libc_writeln(s: &str) {
    let mut stm = __LibCWriter::new(__LIBC_STDOUT);
    let _ = stm.write_str(s);
    let _ = stm.write_nl();
}

/// The literal fast path to the error stream, with a trailing newline.
pub fn libc_ewriteln(s: &str) {
    let mut stm = __LibCWriter::new(__LIBC_STDERR);
    let _ = stm.write_str(s);
    let _ = stm.write_nl();
}

/// Relies on the formatting engine (`format!` with the pretty `{:#?}`
/// style, reaching the value's `core::fmt::Debug` implementation) to
/// render a value for inspection.
#[verifier::external_body]
fn render_pretty<T: core::fmt::Debug>(value: &T) -> String {
    format!("{:#?}", value)
}

/// Inspect-and-return with no expression: emit the source-location
/// annotation alone, to the error stream, with its newline.
pub fn libc_dbg_here(file: &str, line: u32) {
    let v = annotation_line(file, line);
    let mut stm = __LibCWriter::new(__LIBC_STDERR);
    let _ = stm.write_bytes(v.as_slice());
    let _ = stm.write_nl();
}

/// Inspect-and-return: emit the source location, the expression's text and
/// the pretty rendering of its value to the error stream, and hand the
/// value back unchanged to the surrounding expression. Several expressions
/// are inspected by applying this to each in turn, left to right.
pub fn libc_dbg<T: core::fmt::Debug>(file: &str, line: u32, expr: &str, value: T) -> (r: T)
    ensures
        r == value,
{
    let rendered = render_pretty(&value);
    let v = inspect_line(file, line, expr, rendered.as_str());
    let mut stm = __LibCWriter::new(__LIBC_STDERR);
    let _ = stm.write_bytes(v.as_slice());
    let _ = stm.write_nl();
    value
}

} // verus!
