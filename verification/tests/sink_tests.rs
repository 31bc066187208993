//! Tests that drive the sink's executable run step against primitives with
//! fixed behaviours, observing every call the sink makes.

use libc_print::SinkRun;

/// Drive a run over `data` against a primitive that accepts
/// `min(chunk, remaining)` bytes per call. Returns the offsets the sink
/// called at, the bytes accepted in order, and whether the run completed.
fn drive_chunked(data: &[u8], chunk: usize) -> (Vec<usize>, Vec<u8>, bool) {
    let mut calls: Vec<usize> = Vec::new();
    let mut accepted: Vec<u8> = Vec::new();
    let mut run = SinkRun::start(data.len());
    while let Some(from) = run.next_offset() {
        calls.push(from);
        let remaining = &data[from..];
        let take = remaining.len().min(chunk);
        accepted.extend_from_slice(&remaining[..take]);
        run.observe(Some(take));
    }
    (calls, accepted, run.complete())
}

#[test]
fn test_chunk7_transmits_all_in_order() {
    let data: Vec<u8> = (0u8..20u8).collect();
    let (calls, accepted, complete) = drive_chunked(&data, 7);
    // ceil(20 / 7) calls, each at the next multiple of 7
    assert_eq!(calls, vec![0, 7, 14]);
    // every byte arrives, in order, none duplicated
    assert_eq!(accepted, data);
    assert!(complete);
}

#[test]
fn test_chunk7_exact_multiple() {
    let data: Vec<u8> = (0u8..14u8).collect();
    let (calls, accepted, complete) = drive_chunked(&data, 7);
    assert_eq!(calls, vec![0, 7]);
    assert_eq!(accepted, data);
    assert!(complete);
}

#[test]
fn test_chunk7_empty_slice_makes_no_calls() {
    let data: Vec<u8> = Vec::new();
    let (calls, accepted, complete) = drive_chunked(&data, 7);
    assert_eq!(calls.len(), 0);
    assert_eq!(accepted.len(), 0);
    assert!(complete);
}

#[test]
fn test_no_progress_stops_run() {
    // the primitive accepts one byte, then reports a zero-byte result
    let data = b"abcdef";
    let mut run = SinkRun::start(data.len());
    let mut calls: Vec<usize> = Vec::new();

    let first = run.next_offset().unwrap();
    calls.push(first);
    run.observe(Some(1));

    let second = run.next_offset().unwrap();
    calls.push(second);
    run.observe(Some(0));

    // the run is over after exactly the call that made no progress
    assert_eq!(calls, vec![0, 1]);
    assert_eq!(run.next_offset(), None);
    assert!(!run.complete());
    assert_eq!(run.cursor, 1);
}

#[test]
fn test_error_stops_run() {
    let data = b"abcdef";
    let mut run = SinkRun::start(data.len());
    run.next_offset().unwrap();
    run.observe(Some(2));
    run.next_offset().unwrap();
    run.observe(None);
    assert_eq!(run.next_offset(), None);
    assert!(!run.complete());
    assert_eq!(run.cursor, 2);
}

#[test]
fn test_two_bytes_one_at_a_time() {
    // writing "ab" against a primitive that accepts a single byte per call:
    // exactly two calls, the first offered "ab", the second offered "b"
    let data = b"ab";
    let mut run = SinkRun::start(data.len());

    let first = run.next_offset().unwrap();
    assert_eq!(&data[first..], b"ab");
    run.observe(Some(1));

    let second = run.next_offset().unwrap();
    assert_eq!(&data[second..], b"b");
    run.observe(Some(1));

    assert_eq!(run.next_offset(), None);
    assert!(run.complete());
}
