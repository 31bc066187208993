//! Tests of the writer and the dispatch layer against the real streams.

use libc_print::__LibCWriter;
use libc_print::__LIBC_STDERR;
use libc_print::__LIBC_STDOUT;

#[test]
fn test_stdout() {
    let mut stm = __LibCWriter::new(__LIBC_STDOUT);
    let _ = stm.write_str(&format!("stdout fd = {}", __LIBC_STDOUT));
    let _ = stm.write_nl();
}

#[test]
fn test_stderr() {
    let mut stm = __LibCWriter::new(__LIBC_STDERR);
    let _ = stm.write_str(&format!("stderr fd = {}", __LIBC_STDERR));
    let _ = stm.write_nl();
}

#[test]
fn lib_test_stdout() {
    let mut stm = __LibCWriter::new(__LIBC_STDOUT);
    let _ = stm.write_str(&format!("stdout fd = {}", __LIBC_STDOUT));
    let _ = stm.write_nl();
}

#[test]
fn lib_test_stderr() {
    let mut stm = __LibCWriter::new(__LIBC_STDERR);
    let _ = stm.write_str(&format!("stderr fd = {}", __LIBC_STDERR));
    let _ = stm.write_nl();
}

#[test]
fn test_stdout_write() {
    libc_print::libc_writeln("stdout!");
}

#[test]
fn test_stderr_write() {
    libc_print::libc_ewriteln("stderr!");
}

#[test]
fn test_dbg() {
    let a: i32 = 2;
    let b: i32 = libc_print::libc_dbg("tests/writer_tests.rs", 48, "a * 2", a * 2) + 1;
    assert_eq!(b, 5);
}

#[test]
fn test_dbg_here_runs() {
    libc_print::libc_dbg_here("tests/writer_tests.rs", 54);
}

#[test]
fn test_dbg_tuple_left_to_right() {
    let a: i32 = 1;
    let b: i32 = 10;
    let t = (
        libc_print::libc_dbg("tests/writer_tests.rs", 63, "a + 1", a + 1),
        libc_print::libc_dbg("tests/writer_tests.rs", 64, "b + 1", b + 1),
    );
    assert_eq!(t, (2, 11));
}

#[test]
fn test_write_results_are_ok() {
    let mut stm = __LibCWriter::new(__LIBC_STDOUT);
    assert!(stm.write_str("ok so far").is_ok());
    assert!(stm.write_nl().is_ok());
    assert!(stm.write_bytes(b"bytes too\n").is_ok());
}

#[test]
fn test_fast_path_functions_run() {
    libc_print::libc_write("fast path, no newline ... ");
    libc_print::libc_ewrite("error fast path, no newline ... ");
    libc_print::libc_writeln("done");
    libc_print::libc_ewriteln("done");
}

#[test]
fn test_println_via_raw_sink() {
    assert!(libc_print::__libc_println(__LIBC_STDOUT, "raw sink line\n").is_ok());
    assert!(libc_print::__libc_println(__LIBC_STDOUT, "").is_ok());
}
