//! The retrying byte sink.
//!
//! One call to the raw write primitive yields a *response*: `None` for an
//! OS-reported error, `Some(n)` for `n` bytes accepted. The sink keeps a
//! cursor into the slice being transmitted, calls the primitive on the
//! remaining suffix, and advances the cursor by whatever was accepted; an
//! error or a zero-byte response stops the run for good.
//!
//! The spec functions here describe a whole run against a sequence of
//! responses: which offsets the primitive is called at, where the cursor
//! ends, and which bytes travel. [`SinkRun`] is the executable form of one
//! step of that run, so that a caller holding the primitive can drive the
//! loop itself and still inherit the proofs.

use vstd::prelude::*;

verus! {

/// A response that allows no further transmission: an OS error or a
/// zero-byte accept. Both end the run.
pub open spec fn no_progress(r: Option<nat>) -> bool {
    match r {
        None => true,
        Some(n) => n == 0,
    }
}

/// A response never reports more bytes accepted than were offered.
pub open spec fn response_fits(cursor: nat, len: nat, r: Option<nat>) -> bool {
    r matches Some(n) ==> cursor + n <= len
}

/// The cursor after one response, clamped so that it can never pass the end.
pub open spec fn step_cursor(cursor: nat, len: nat, r: Option<nat>) -> nat {
    match r {
        None => cursor,
        Some(n) => if cursor + n <= len {
            cursor + n
        } else {
            len
        },
    }
}

/// The offsets at which a run starting at `cursor` calls the primitive,
/// consuming one response per call, until the slice is exhausted, the
/// responses run out, or a response reports no progress. A no-progress
/// response still accounts for the call that produced it.
pub open spec fn run_calls(cursor: nat, len: nat, rs: Seq<Option<nat>>) -> Seq<nat>
    decreases rs.len(),
{
    if cursor >= len || rs.len() == 0 {
        Seq::empty()
    } else if no_progress(rs[0]) {
        seq![cursor]
    } else {
        seq![cursor] + run_calls(step_cursor(cursor, len, rs[0]), len, rs.drop_first())
    }
}

/// The cursor at which the run ends.
pub open spec fn run_final(cursor: nat, len: nat, rs: Seq<Option<nat>>) -> nat
    decreases rs.len(),
{
    if cursor >= len || rs.len() == 0 {
        cursor
    } else if no_progress(rs[0]) {
        cursor
    } else {
        run_final(step_cursor(cursor, len, rs[0]), len, rs.drop_first())
    }
}

/// The bytes the run hands to the primitive that the primitive accepts, in
/// the order they are accepted: each call contributes the prefix of the
/// remaining suffix that its response reports.
pub open spec fn run_sent(cursor: nat, data: Seq<u8>, rs: Seq<Option<nat>>) -> Seq<u8>
    decreases rs.len(),
{
    if cursor >= data.len() || rs.len() == 0 {
        Seq::empty()
    } else if no_progress(rs[0]) {
        Seq::empty()
    } else {
        data.subrange(cursor as int, step_cursor(cursor, data.len(), rs[0]) as int) + run_sent(
            step_cursor(cursor, data.len(), rs[0]),
            data,
            rs.drop_first(),
        )
    }
}

/// The cursor never moves backwards and never passes the end.
pub proof fn lemma_run_final_bounds(cursor: nat, len: nat, rs: Seq<Option<nat>>)
    requires
        cursor <= len,
    ensures
        cursor <= run_final(cursor, len, rs) <= len,
    decreases rs.len(),
{
    if cursor >= len || rs.len() == 0 {
    } else if no_progress(rs[0]) {
    } else {
        lemma_run_final_bounds(step_cursor(cursor, len, rs[0]), len, rs.drop_first());
    }
}

/// What a run transmits is exactly the contiguous range of the slice from
/// its starting cursor to its final cursor: bytes travel in order, none
/// duplicated, none skipped.
pub proof fn lemma_run_sent_exact(cursor: nat, data: Seq<u8>, rs: Seq<Option<nat>>)
    requires
        cursor <= data.len(),
    ensures
        run_sent(cursor, data, rs) == data.subrange(
            cursor as int,
            run_final(cursor, data.len(), rs) as int,
        ),
    decreases rs.len(),
{
    let len = data.len();
    if cursor >= len || rs.len() == 0 {
        assert(run_sent(cursor, data, rs) =~= data.subrange(cursor as int, cursor as int));
    } else if no_progress(rs[0]) {
        assert(run_sent(cursor, data, rs) =~= data.subrange(cursor as int, cursor as int));
    } else {
        let mid = step_cursor(cursor, len, rs[0]);
        lemma_run_sent_exact(mid, data, rs.drop_first());
        lemma_run_final_bounds(mid, len, rs.drop_first());
        assert(run_sent(cursor, data, rs) =~= data.subrange(
            cursor as int,
            run_final(cursor, len, rs) as int,
        ));
    }
}

/// The responses of a primitive that accepts at most `chunk` bytes per
/// call: every call on a remainder of `rem` bytes accepts
/// `min(chunk, rem)`, until nothing remains.
pub open spec fn chunk_responses(rem: nat, chunk: nat) -> Seq<Option<nat>>
    decreases rem,
    when chunk >= 1
{
    if rem == 0 {
        Seq::empty()
    } else if rem <= chunk {
        seq![Some(rem)]
    } else {
        seq![Some(chunk)] + chunk_responses((rem - chunk) as nat, chunk)
    }
}

/// Against a primitive that always accepts `min(chunk, remaining)` bytes, a
/// run over the rest of the slice calls the primitive once per `chunk`
/// bytes, rounded up, and transmits every remaining byte in order, none
/// duplicated, none reordered.
pub proof fn lemma_chunked_run(cursor: nat, data: Seq<u8>, chunk: nat)
    requires
        chunk >= 1,
        cursor <= data.len(),
    ensures
        run_final(cursor, data.len(), chunk_responses((data.len() - cursor) as nat, chunk))
            == data.len(),
        run_calls(cursor, data.len(), chunk_responses((data.len() - cursor) as nat, chunk)).len()
            == (data.len() - cursor + chunk - 1) / (chunk as int),
        run_sent(cursor, data, chunk_responses((data.len() - cursor) as nat, chunk))
            == data.subrange(cursor as int, data.len() as int),
    decreases data.len() - cursor,
{
    let len = data.len();
    let rem = (len - cursor) as nat;
    let rs = chunk_responses(rem, chunk);
    if rem == 0 {
        assert(rs =~= Seq::<Option<nat>>::empty());
        vstd::arithmetic::div_mod::lemma_basic_div((chunk - 1) as int, chunk as int);
        assert(run_sent(cursor, data, rs) =~= data.subrange(cursor as int, len as int));
    } else if rem <= chunk {
        assert(rs[0] == Some(rem));
        let mid = step_cursor(cursor, len, rs[0]);
        assert(mid == len);
        assert(rs.drop_first() =~= Seq::<Option<nat>>::empty());
        assert(run_calls(mid, len, rs.drop_first()) =~= Seq::<nat>::empty());
        assert(run_final(mid, len, rs.drop_first()) == len);
        assert(run_sent(mid, data, rs.drop_first()) =~= Seq::<u8>::empty());
        assert(run_calls(cursor, len, rs) =~= seq![cursor]);
        vstd::arithmetic::div_mod::lemma_div_plus_one((rem - 1) as int, chunk as int);
        vstd::arithmetic::div_mod::lemma_basic_div((rem - 1) as int, chunk as int);
        assert(run_sent(cursor, data, rs) =~= data.subrange(cursor as int, len as int));
    } else {
        assert(rs[0] == Some(chunk));
        let mid = step_cursor(cursor, len, rs[0]);
        assert(mid == cursor + chunk);
        assert(rs.drop_first() =~= chunk_responses((rem - chunk) as nat, chunk));
        lemma_chunked_run(mid, data, chunk);
        vstd::arithmetic::div_mod::lemma_div_plus_one((rem - 1) as int, chunk as int);
        assert(run_calls(cursor, len, rs).len() == 1 + run_calls(mid, len, rs.drop_first()).len());
        assert(run_sent(cursor, data, rs) =~= data.subrange(cursor as int, len as int));
    }
}

/// When the primitive makes progress on the first `k` calls of a run that
/// still has bytes left, and the call after them reports no progress, the
/// run makes exactly those `k + 1` calls — the responses past the failing
/// one are never asked for — and the cursor stays where the progress left
/// it.
pub proof fn lemma_no_progress_stops_run(cursor: nat, len: nat, rs: Seq<Option<nat>>, k: int)
    requires
        cursor <= len,
        0 <= k < rs.len(),
        forall|i: int| 0 <= i < k ==> !no_progress(#[trigger] rs[i]),
        no_progress(rs[k]),
        run_final(cursor, len, rs.take(k)) < len,
    ensures
        run_calls(cursor, len, rs).len() == k + 1,
        run_final(cursor, len, rs) == run_final(cursor, len, rs.take(k)),
    decreases k,
{
    lemma_run_final_bounds(cursor, len, rs.take(k));
    if k == 0 {
        assert(rs.take(0) =~= Seq::<Option<nat>>::empty());
    } else {
        let mid = step_cursor(cursor, len, rs[0]);
        assert(rs.take(k)[0] == rs[0]);
        assert(rs.take(k).drop_first() =~= rs.drop_first().take(k - 1));
        assert(forall|i: int|
            0 <= i < k - 1 ==> !no_progress(#[trigger] rs.drop_first()[i]) && rs.drop_first()[i]
                == rs[i + 1]);
        lemma_no_progress_stops_run(mid, len, rs.drop_first(), k - 1);
    }
}

/// The mathematical form of a primitive response.
pub open spec fn view_response(r: Option<usize>) -> Option<nat> {
    match r {
        None => None,
        Some(n) => Some(n as nat),
    }
}

/// One step of the sink, in executable form. A caller that owns a raw write
/// primitive starts a run over a slice's length, asks for the next offset to
/// offer, reports each response back, and stops when no offset is pending.
pub struct SinkRun {
    /// How many leading bytes of the slice have been accepted so far.
    pub cursor: usize,
    /// The length of the slice being transmitted.
    pub len: usize,
    /// Whether a response has reported no progress, ending the run early.
    pub stopped: bool,
}

impl SinkRun {
    /// The cursor stays within the slice.
    pub open spec fn wf(self) -> bool {
        self.cursor <= self.len
    }

    /// A run is live while nothing has stopped it and bytes remain.
    pub open spec fn live(self) -> bool {
        !self.stopped && self.cursor < self.len
    }

    /// A fresh run over a slice of length `len`, cursor at the start.
    pub fn start(len: usize) -> (s: SinkRun)
        ensures
            s.cursor == 0,
            s.len == len,
            !s.stopped,
            s.wf(),
    {
        SinkRun { cursor: 0, len, stopped: false }
    }

    /// The offset the primitive should be called at next, or `None` when the
    /// run is over (all bytes accepted, or stopped for want of progress).
    pub fn next_offset(&self) -> (r: Option<usize>)
        ensures
            r == if self.live() {
                Some(self.cursor)
            } else {
                None::<usize>
            },
    {
        if !self.stopped && self.cursor < self.len {
            Some(self.cursor)
        } else {
            None
        }
    }

    /// Record one response from the primitive: advance the cursor by the
    /// accepted count, or mark the run stopped on an error or a zero-byte
    /// accept.
    pub fn observe(&mut self, response: Option<usize>)
        requires
            old(self).wf(),
            old(self).live(),
            response_fits(old(self).cursor as nat, old(self).len as nat, view_response(response)),
        ensures
            final(self).len == old(self).len,
            final(self).cursor == step_cursor(
                old(self).cursor as nat,
                old(self).len as nat,
                view_response(response),
            ),
            final(self).stopped == no_progress(view_response(response)),
            final(self).wf(),
    {
        match response {
            None => {
                self.stopped = true;
            },
            Some(n) => {
                if n == 0 {
                    self.stopped = true;
                } else {
                    self.cursor = self.cursor + n;
                }
            },
        }
    }

    /// Whether every byte of the slice was accepted.
    pub fn complete(&self) -> (r: bool)
        ensures
            r == (self.cursor == self.len),
    {
        self.cursor == self.len
    }
}

} // verus!
