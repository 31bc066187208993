//! Best-effort formatted output to the standard output and standard error
//! streams, built on a raw descriptor write that may accept only part of a
//! buffer at a time.
//!
//! The heart of the library is a retrying byte sink: it pushes a byte slice
//! through the raw write primitive, advancing a cursor by however many bytes
//! each call accepted, until the whole slice has been handed over or a call
//! reports no progress, at which point the remainder is silently dropped.
//! Failures are never surfaced to the caller: the output path is meant to be
//! usable where panicking or allocating a diagnostic would itself be unsafe.

use vstd::prelude::*;

pub mod dbgline;
pub mod dispatch;
pub mod sink;
pub mod writer;

pub use dbgline::annotation_line;
pub use dbgline::inspect_line;
pub use dispatch::libc_dbg;
pub use dispatch::libc_dbg_here;
pub use dispatch::libc_eprint;
pub use dispatch::libc_eprintln;
pub use dispatch::libc_ewrite;
pub use dispatch::libc_ewriteln;
pub use dispatch::libc_print;
pub use dispatch::libc_println;
pub use dispatch::libc_write;
pub use dispatch::libc_writeln;
pub use sink::SinkRun;
pub use writer::__LibCWriter;
pub use writer::__libc_println;

verus! {

/// Descriptor of the standard output stream, fixed by OS convention.
pub const __LIBC_STDOUT: i32 = 1;

/// Descriptor of the standard error stream, fixed by OS convention.
pub const __LIBC_STDERR: i32 = 2;

/// A descriptor may only name one of the two standard streams.
pub open spec fn valid_handle(handle: i32) -> bool {
    handle == __LIBC_STDOUT || handle == __LIBC_STDERR
}

} // verus!
