//! The writer over one standard stream.
//!
//! [`__LibCWriter`] pairs a stream descriptor with a ghost transcript of
//! every byte handed to the retrying sink on its behalf. The transcript is
//! what the contracts speak of: what a call *offers* to the operating
//! system. How much of it the OS accepts is the raw write primitive's
//! affair and is never surfaced — on a stalled stream the output is
//! truncated silently.

use vstd::prelude::*;
use vstd::string::StringSliceAdditionalSpecFns;

use crate::sink::SinkRun;
use crate::valid_handle;
use crate::__LIBC_STDOUT;

verus! {

/// The declaration of `core::fmt::Error`, so that the conventional
/// `core::fmt::Result` can appear in signatures. No operation here ever
/// produces the error: failures are swallowed, as the callers expect.
#[verifier::external_type_specification]
#[verifier::external_body]
pub struct ExFmtError(core::fmt::Error);

/// The declaration of `core::fmt::Arguments`, the formatting engine's
/// packaged template and values. A value of it is carried through opaquely
/// and handed back to the engine to be rendered.
#[verifier::external_type_specification]
#[verifier::external_body]
pub struct ExArguments<'a>(core::fmt::Arguments<'a>);

/// Relies on `std::io::stdout` and `std::io::Write::write`: one write call
/// against the standard output stream reports either an error or how many
/// leading bytes of the offered suffix it accepted, never more than the
/// suffix holds.
#[verifier::external_body]
fn raw_write_stdout(bytes: &[u8], from: usize) -> (r: Option<usize>)
    requires
        from < bytes@.len(),
    ensures
        r matches Some(n) ==> from + n <= bytes@.len(),
{
    match std::io::Write::write(&mut std::io::stdout(), &bytes[from..]) {
        Ok(n) => Some(n),
        Err(_) => None,
    }
}

/// Relies on `std::io::stderr` and `std::io::Write::write`: as
/// [`raw_write_stdout`], against the standard error stream.
#[verifier::external_body]
fn raw_write_stderr(bytes: &[u8], from: usize) -> (r: Option<usize>)
    requires
        from < bytes@.len(),
    ensures
        r matches Some(n) ==> from + n <= bytes@.len(),
{
    match std::io::Write::write(&mut std::io::stderr(), &bytes[from..]) {
        Ok(n) => Some(n),
        Err(_) => None,
    }
}

/// Relies on the formatting engine (`format!`) to render a packaged
/// template and its values into the text the engine would produce.
#[verifier::external_body]
fn render_args(args: core::fmt::Arguments) -> String {
    format!("{}", args)
}

/// Push a whole byte slice through the raw write primitive of the given
/// stream: call it on the remaining suffix, advance by what it accepted,
/// and stop for good on the first response that made no progress.
fn send_bytes(handle: i32, bytes: &[u8])
    requires
        valid_handle(handle),
{
    let mut run = SinkRun::start(bytes.len());
    loop
        invariant
            valid_handle(handle),
            run.wf(),
            run.len == bytes@.len(),
        decreases run.len - run.cursor, (if run.stopped {
            0int
        } else {
            1int
        }),
    {
        match run.next_offset() {
            None => {
                break ;
            },
            Some(from) => {
                let response = if handle == __LIBC_STDOUT {
                    raw_write_stdout(bytes, from)
                } else {
                    raw_write_stderr(bytes, from)
                };
                run.observe(response);
            },
        }
    }
}

/// The byte sequence one newline occupies on the wire.
pub open spec fn newline_seq() -> Seq<u8> {
    seq![10u8]
}

/// The newline string encodes to exactly the one newline byte.
pub proof fn lemma_newline_encoding()
    ensures
        "\n".spec_bytes() == newline_seq(),
{
    reveal_strlit("\n");
    let chars = "\n"@;
    assert(chars =~= seq!['\n']);
    assert('\n' as u32 == 10);
    assert((10u32 & 0x7F) == 10u32) by (bit_vector);
    assert(vstd::utf8::encode_scalar(10) =~= seq![10u8]);
    assert(chars.drop_first() =~= Seq::<char>::empty());
    assert(vstd::utf8::encode_utf8(Seq::<char>::empty()) =~= Seq::<u8>::empty());
    assert("\n".spec_bytes() =~= newline_seq());
}

/// The transcript after the sink accepts one fragment.
pub open spec fn pushed(transcript: Seq<u8>, fragment: Seq<u8>) -> Seq<u8> {
    transcript + fragment
}

/// The transcript after the formatting engine drains a sequence of rendered
/// fragments through the sink, first to last. Each fragment is offered
/// independently: one that stalls on the wire does not keep the next from
/// being offered, so the transcript always carries them all.
pub open spec fn drained(transcript: Seq<u8>, fragments: Seq<Seq<u8>>) -> Seq<u8>
    decreases fragments.len(),
{
    if fragments.len() == 0 {
        transcript
    } else {
        drained(pushed(transcript, fragments[0]), fragments.drop_first())
    }
}

/// A writer bound to one standard stream. It owns nothing but the plain
/// descriptor value: no buffer, no open handle, nothing to clean up. The
/// transcript is ghost bookkeeping of every byte offered to the stream.
pub struct __LibCWriter {
    /// The descriptor of the stream written to.
    pub handle: i32,
    /// Every byte handed to the sink through this writer, in order.
    pub transcript: Ghost<Seq<u8>>,
}

impl __LibCWriter {
    /// A writer holds a descriptor of one of the two standard streams.
    pub open spec fn wf(self) -> bool {
        valid_handle(self.handle)
    }

    /// A fresh writer over the given stream, with an empty transcript.
    pub fn new(handle: i32) -> (w: __LibCWriter)
        requires
            valid_handle(handle),
        ensures
            w.handle == handle,
            w.transcript@ == Seq::<u8>::empty(),
            w.wf(),
    {
        __LibCWriter { handle, transcript: Ghost(Seq::empty()) }
    }

    /// Offer a byte slice to the stream, whole. This is the sink's
    /// slice-level entry: the bytes join the transcript exactly once, in
    /// order, whatever the stream later accepts of them.
    pub fn write_bytes(&mut self, bytes: &[u8]) -> (r: core::fmt::Result)
        requires
            old(self).wf(),
        ensures
            final(self).handle == old(self).handle,
            final(self).transcript@ == pushed(old(self).transcript@, bytes@),
            final(self).wf(),
            r is Ok,
    {
        send_bytes(self.handle, bytes);
        proof {
            self.transcript@ = pushed(self.transcript@, bytes@);
        }
        Ok(())
    }

    /// The literal fast path, and the fragment acceptor the formatting
    /// engine drains into: offer one string to the stream, bypassing the
    /// engine entirely.
    pub fn write_str(&mut self, s: &str) -> (r: core::fmt::Result)
        requires
            old(self).wf(),
        ensures
            final(self).handle == old(self).handle,
            final(self).transcript@ == pushed(old(self).transcript@, s.spec_bytes()),
            final(self).wf(),
            r is Ok,
    {
        self.write_bytes(s.as_bytes())
    }

    /// The formatting-engine path: have the engine render the packaged
    /// template and values, then drain the rendering through the sink. The
    /// engine alone decides the text, so the contract promises only that
    /// the transcript grows by exactly the fragments some rendering yields.
    pub fn write_fmt(&mut self, args: core::fmt::Arguments) -> (r: core::fmt::Result)
        requires
            old(self).wf(),
        ensures
            final(self).handle == old(self).handle,
            exists|rendering: Seq<u8>|
                final(self).transcript@ == drained(old(self).transcript@, seq![rendering]),
            final(self).wf(),
            r is Ok,
    {
        let rendered = render_args(args);
        let r = self.write_str(rendered.as_str());
        proof {
            let rendering = vstd::utf8::encode_utf8(rendered@);
            lemma_fast_path_matches_engine(old(self).transcript@, rendering);
        }
        r
    }

    /// The newline convenience: append exactly one newline sequence to the
    /// stream and nothing else.
    pub fn write_nl(&mut self) -> (r: core::fmt::Result)
        requires
            old(self).wf(),
        ensures
            final(self).handle == old(self).handle,
            final(self).transcript@ == pushed(old(self).transcript@, newline_seq()),
            final(self).wf(),
            r is Ok,
    {
        proof {
            lemma_newline_encoding();
        }
        self.write_str("\n")
    }
}

/// Offer a string to the given stream through the retrying sink. Errors are
/// swallowed: the result is always `Ok`, as the callers rely on.
pub fn __libc_println(handle: i32, msg: &str) -> (r: core::fmt::Result)
    requires
        valid_handle(handle),
    ensures
        r is Ok,
{
    send_bytes(handle, msg.as_bytes());
    Ok(())
}

/// The literal fast path and the engine path write byte-identical output
/// whenever the engine's rendering of a template is that template itself —
/// in particular for a template with no substitutions, which the engine
/// yields as its single fragment.
pub proof fn lemma_fast_path_matches_engine(transcript: Seq<u8>, template: Seq<u8>)
    ensures
        drained(transcript, seq![template]) == pushed(transcript, template),
{
    let frags = seq![template];
    assert(frags[0] == template);
    assert(frags.drop_first() =~= Seq::<Seq<u8>>::empty());
    assert(drained(transcript, frags) == drained(pushed(transcript, template), frags.drop_first()));
    assert(drained(pushed(transcript, template), Seq::<Seq<u8>>::empty()) == pushed(
        transcript,
        template,
    ));
}

} // verus!
