//! The byte-pump: one direction of a session reads available bytes into a
//! fixed-size buffer and writes exactly what was read to the peer socket,
//! repeating until a zero-length read (clean end-of-stream) or an I/O error.
//! Bytes are passed through unchanged, in the order received; nothing is
//! parsed or transformed. Both directions of a session run this same logic
//! independently, one from the client socket to the upstream socket and one
//! the other way.

use vstd::prelude::*;
use vstd::slice::slice_subrange;
use vstd::slice::slice_to_vec;

verus! {

/// Size of the fixed read buffer of one pump direction, in bytes.
pub const BUFFER_SIZE: usize = 2048;

/// What one read call on a direction's source socket produced.
pub enum ReadOutcome {
    /// The bytes the read call filled in: exactly what was read, no more.
    Data(Vec<u8>),
    /// A zero-length read: the source reached a clean end-of-stream.
    Eof,
    /// The read call failed.
    Failed,
}

/// The mathematical image of one read.
pub enum ReadEvent {
    Data(Seq<u8>),
    Eof,
    Failed,
}

impl View for ReadOutcome {
    type V = ReadEvent;

    open spec fn view(&self) -> ReadEvent {
        match self {
            ReadOutcome::Data(b) => ReadEvent::Data(b@),
            ReadOutcome::Eof => ReadEvent::Eof,
            ReadOutcome::Failed => ReadEvent::Failed,
        }
    }
}

/// A read respects the fixed buffer: a data chunk holds between one byte and
/// a buffer's worth. A zero-length read is `Eof`, never an empty chunk.
pub open spec fn valid_read(e: ReadEvent) -> bool {
    match e {
        ReadEvent::Data(b) => 1 <= b.len() <= BUFFER_SIZE,
        _ => true,
    }
}

/// What the pump decides to do after one read.
pub enum PumpAction {
    /// Write exactly these bytes to the peer socket.
    Forward(Vec<u8>),
    /// Clean end-of-stream: tear the session down; not an error.
    CloseClean,
    /// I/O failure: tear the session down and report the error.
    CloseError,
}

/// The mathematical image of one pump decision.
pub enum PumpCommand {
    Forward(Seq<u8>),
    CloseClean,
    CloseError,
}

impl View for PumpAction {
    type V = PumpCommand;

    open spec fn view(&self) -> PumpCommand {
        match self {
            PumpAction::Forward(b) => PumpCommand::Forward(b@),
            PumpAction::CloseClean => PumpCommand::CloseClean,
            PumpAction::CloseError => PumpCommand::CloseError,
        }
    }
}

/// The pump's per-read decision: data is forwarded untouched; end-of-stream
/// and errors both end the direction, kept distinct for reporting.
pub open spec fn spec_pump_step(e: ReadEvent) -> PumpCommand {
    match e {
        ReadEvent::Data(b) => PumpCommand::Forward(b),
        ReadEvent::Eof => PumpCommand::CloseClean,
        ReadEvent::Failed => PumpCommand::CloseError,
    }
}

/// Decides what to do with one read outcome. The bytes of a data chunk are
/// handed on exactly as received.
pub fn pump_step(r: ReadOutcome) -> (a: PumpAction)
    ensures
        a@ == spec_pump_step(r@),
{
    match r {
        ReadOutcome::Data(b) => PumpAction::Forward(b),
        ReadOutcome::Eof => PumpAction::CloseClean,
        ReadOutcome::Failed => PumpAction::CloseError,
    }
}

/// Turns the raw result of one read call into a [`ReadOutcome`]: a failed
/// call is `Failed`, a zero-length read is `Eof`, and otherwise exactly the
/// first `n` bytes of the buffer — what the call filled in — are the chunk.
pub fn classify_read(ok: bool, n: usize, buf: &[u8]) -> (r: ReadOutcome)
    requires
        ok ==> n <= buf@.len(),
    ensures
        r@ == (if !ok {
            ReadEvent::Failed
        } else if n == 0 {
            ReadEvent::Eof
        } else {
            ReadEvent::Data(buf@.subrange(0, n as int))
        }),
        n <= BUFFER_SIZE ==> valid_read(r@),
{
    if !ok {
        ReadOutcome::Failed
    } else if n == 0 {
        ReadOutcome::Eof
    } else {
        ReadOutcome::Data(slice_to_vec(slice_subrange(buf, 0, n)))
    }
}

/// How one pump direction ended.
#[derive(Clone, Copy, PartialEq, Eq, Structural, Debug)]
pub enum DirectionEnd {
    /// The source reached a clean end-of-stream.
    CleanEof,
    /// A read failed.
    IoError,
    /// The trace ran out without the source closing.
    StillOpen,
}

/// The bytes one direction delivers to its peer, given the trace of reads on
/// its source: the concatenation, in order, of every data chunk before the
/// first end-of-stream or failure — and nothing else.
pub open spec fn forwarded(t: Seq<ReadEvent>) -> Seq<u8>
    decreases t.len(),
{
    if t.len() == 0 {
        Seq::empty()
    } else {
        match t[0] {
            ReadEvent::Data(b) => b + forwarded(t.drop_first()),
            _ => Seq::empty(),
        }
    }
}

/// How a trace of reads ends a direction: with the first non-data read, or
/// not at all.
pub open spec fn direction_end(t: Seq<ReadEvent>) -> DirectionEnd
    decreases t.len(),
{
    if t.len() == 0 {
        DirectionEnd::StillOpen
    } else {
        match t[0] {
            ReadEvent::Data(_) => direction_end(t.drop_first()),
            ReadEvent::Eof => DirectionEnd::CleanEof,
            ReadEvent::Failed => DirectionEnd::IoError,
        }
    }
}

/// The images of a trace of read outcomes.
pub open spec fn events(s: Seq<ReadOutcome>) -> Seq<ReadEvent> {
    s.map_values(|r: ReadOutcome| r@)
}

/// Appends all of `src` to `dst`, in order.
fn append_bytes(dst: &mut Vec<u8>, src: &Vec<u8>)
    ensures
        final(dst)@ == old(dst)@ + src@,
{
    let mut j: usize = 0;
    while j < src.len()
        invariant
            j <= src@.len(),
            dst@ == old(dst)@ + src@.subrange(0, j as int),
        decreases src@.len() - j,
    {
        let b = src[j];
        dst.push(b);
        assert(src@.subrange(0, j + 1 as int) =~= src@.subrange(0, j as int).push(src@[j as int]));
        j = j + 1;
    }
    assert(src@.subrange(0, src@.len() as int) =~= src@);
}

/// Runs one copy direction over the trace of reads its source yields,
/// forwarding each data chunk untouched and stopping at the first
/// end-of-stream or failure. The bytes delivered to the peer are exactly the
/// bytes the source sent before closing, in the same order.
pub fn pump_direction(script: &Vec<ReadOutcome>) -> (out: (Vec<u8>, DirectionEnd))
    ensures
        out.0@ == forwarded(events(script@)),
        out.1 == direction_end(events(script@)),
{
    let ghost t = events(script@);
    proof {
        assert(t.skip(0) =~= t);
    }
    let mut written: Vec<u8> = Vec::new();
    let mut i: usize = 0;
    while i < script.len()
        invariant
            t == events(script@),
            t.len() == script@.len(),
            i <= script@.len(),
            written@ + forwarded(t.skip(i as int)) == forwarded(t),
            direction_end(t.skip(i as int)) == direction_end(t),
        decreases script@.len() - i,
    {
        assert(t.skip(i as int)[0] == t[i as int]);
        match &script[i] {
            ReadOutcome::Data(b) => {
                proof {
                    assert(t[i as int] == ReadEvent::Data(b@));
                    assert(t.skip(i as int).drop_first() =~= t.skip(i + 1 as int));
                }
                append_bytes(&mut written, b);
            },
            ReadOutcome::Eof => {
                assert(forwarded(t.skip(i as int)) =~= Seq::<u8>::empty());
                assert(written@ =~= forwarded(t));
                return (written, DirectionEnd::CleanEof);
            },
            ReadOutcome::Failed => {
                assert(forwarded(t.skip(i as int)) =~= Seq::<u8>::empty());
                assert(written@ =~= forwarded(t));
                return (written, DirectionEnd::IoError);
            },
        }
        i = i + 1;
    }
    proof {
        assert(t.skip(i as int) =~= Seq::<ReadEvent>::empty());
    }
    (written, DirectionEnd::StillOpen)
}

/// Extending a trace that is still open by one read extends the delivered
/// bytes by exactly that read's data, and ends the direction exactly when
/// the read is an end-of-stream or a failure.
pub proof fn lemma_forwarded_extend(t: Seq<ReadEvent>, e: ReadEvent)
    requires
        direction_end(t) == DirectionEnd::StillOpen,
    ensures
        forwarded(t.push(e)) == forwarded(t) + (match e {
            ReadEvent::Data(b) => b,
            _ => Seq::<u8>::empty(),
        }),
        direction_end(t.push(e)) == (match e {
            ReadEvent::Data(_) => DirectionEnd::StillOpen,
            ReadEvent::Eof => DirectionEnd::CleanEof,
            ReadEvent::Failed => DirectionEnd::IoError,
        }),
    decreases t.len(),
{
    if t.len() == 0 {
        assert(t.push(e)[0] == e);
        assert(t.push(e).drop_first() =~= t);
        match e {
            ReadEvent::Data(b) => {
                assert(forwarded(t.push(e)) =~= b + Seq::<u8>::empty());
            },
            _ => {},
        }
    } else {
        assert(t.push(e)[0] == t[0]);
        assert(t.push(e).drop_first() =~= t.drop_first().push(e));
        lemma_forwarded_extend(t.drop_first(), e);
    }
}

/// One direction mid-relay: how many of its source's reads it has consumed,
/// the bytes it has delivered so far, and whether (and how) it has ended.
pub struct DirectionRun {
    /// The bytes delivered to the peer so far.
    pub written: Vec<u8>,
    /// How many reads of the source have been consumed.
    pub consumed: usize,
    /// `None` while the direction is still open; otherwise how it ended.
    pub ended: Option<DirectionEnd>,
}

/// A run is faithful to its script: it has delivered exactly the forwarded
/// image of the prefix it consumed, and it has ended exactly as that prefix
/// ends.
pub open spec fn run_tracks(r: DirectionRun, script: Seq<ReadOutcome>) -> bool {
    &&& r.consumed <= script.len()
    &&& r.written@ == forwarded(events(script).take(r.consumed as int))
    &&& match r.ended {
        Option::Some(e) => e == direction_end(events(script).take(r.consumed as int)) && e
            != DirectionEnd::StillOpen,
        Option::None => direction_end(events(script).take(r.consumed as int))
            == DirectionEnd::StillOpen,
    }
}

/// A fresh run tracks any script: nothing consumed, nothing delivered.
pub proof fn lemma_fresh_run_tracks(r: DirectionRun, script: Seq<ReadOutcome>)
    requires
        r.consumed == 0,
        r.written@ == Seq::<u8>::empty(),
        r.ended is None,
    ensures
        run_tracks(r, script),
{
    assert(events(script).take(0) =~= Seq::<ReadEvent>::empty());
}

impl DirectionRun {
    /// A direction that has not consumed anything yet.
    pub fn begin() -> (r: DirectionRun)
        ensures
            r.consumed == 0,
            r.written@ == Seq::<u8>::empty(),
            r.ended is None,
    {
        DirectionRun { written: Vec::new(), consumed: 0, ended: Option::None }
    }

    /// Gives this direction one turn: it advances by one read of its own
    /// script — or not at all, if it has already ended or its script is
    /// exhausted. What a turn does depends on this run and its own script
    /// alone; no other session appears anywhere in the contract.
    pub fn step(&mut self, script: &Vec<ReadOutcome>)
        requires
            run_tracks(*old(self), script@),
        ensures
            run_tracks(*final(self), script@),
            (old(self).ended is None && old(self).consumed < script@.len())
                ==> final(self).consumed == old(self).consumed + 1,
            !(old(self).ended is None && old(self).consumed < script@.len()) ==> {
                &&& final(self).consumed == old(self).consumed
                &&& final(self).written@ == old(self).written@
                &&& final(self).ended == old(self).ended
            },
    {
        if self.ended.is_some() {
            return ;
        }
        if self.consumed >= script.len() {
            return ;
        }
        let i = self.consumed;
        let ghost t = events(script@);
        proof {
            assert(t.take(i as int).push(t[i as int]) =~= t.take(i + 1 as int));
            lemma_forwarded_extend(t.take(i as int), t[i as int]);
        }
        match &script[i] {
            ReadOutcome::Data(b) => {
                append_bytes(&mut self.written, b);
            },
            ReadOutcome::Eof => {
                self.ended = Option::Some(DirectionEnd::CleanEof);
                assert(forwarded(t.take(i as int)) + Seq::<u8>::empty() =~= forwarded(
                    t.take(i as int),
                ));
            },
            ReadOutcome::Failed => {
                self.ended = Option::Some(DirectionEnd::IoError);
                assert(forwarded(t.take(i as int)) + Seq::<u8>::empty() =~= forwarded(
                    t.take(i as int),
                ));
            },
        }
        self.consumed = i + 1;
    }
}

/// Runs the directions of many sessions, one script of reads per session.
/// Sessions are fully independent: what session `k` delivers is determined
/// by its own source's reads alone, whatever any other session — one whose
/// client never sends anything included — yields or fails to yield.
pub fn pump_many(scripts: &Vec<Vec<ReadOutcome>>) -> (outs: Vec<(Vec<u8>, DirectionEnd)>)
    ensures
        outs@.len() == scripts@.len(),
        forall|k: int|
            0 <= k < scripts@.len() ==> (#[trigger] outs@[k]).0@ == forwarded(
                events(scripts@[k]@),
            ) && outs@[k].1 == direction_end(events(scripts@[k]@)),
{
    let mut outs: Vec<(Vec<u8>, DirectionEnd)> = Vec::new();
    let mut k: usize = 0;
    while k < scripts.len()
        invariant
            k <= scripts@.len(),
            outs@.len() == k,
            forall|j: int|
                0 <= j < k ==> (#[trigger] outs@[j]).0@ == forwarded(events(scripts@[j]@))
                    && outs@[j].1 == direction_end(events(scripts@[j]@)),
        decreases scripts@.len() - k,
    {
        let r = pump_direction(&scripts[k]);
        outs.push(r);
        k = k + 1;
    }
    outs
}

/// How many turns a schedule gives session `k`.
pub open spec fn turns(schedule: Seq<usize>, k: int) -> nat
    decreases schedule.len(),
{
    if schedule.len() == 0 {
        0
    } else {
        turns(schedule.drop_last(), k) + (if schedule.last() as int == k {
            1nat
        } else {
            0nat
        })
    }
}

/// Where one direction stands after `m` of its own turns, however they were
/// interleaved with anything else: each turn consumes one read, until the
/// direction ends or its reads run out.
pub open spec fn consumed_after(t: Seq<ReadEvent>, m: nat) -> nat
    decreases m,
{
    if m == 0 {
        0
    } else {
        let c = consumed_after(t, (m - 1) as nat);
        if c < t.len() && direction_end(t.take(c as int)) == DirectionEnd::StillOpen {
            c + 1
        } else {
            c
        }
    }
}

/// One more schedule entry gives one more turn to exactly the session it
/// names.
proof fn lemma_turns_extend(schedule: Seq<usize>, s: int, k: int)
    requires
        0 <= s < schedule.len(),
    ensures
        turns(schedule.take(s + 1), k) == turns(schedule.take(s), k) + (
        if schedule[s] as int == k {
            1nat
        } else {
            0nat
        }),
{
    assert(schedule.take(s + 1).drop_last() =~= schedule.take(s));
    assert(schedule.take(s + 1).last() == schedule[s]);
}

/// Runs many directions under an arbitrary interleaving. `schedule` names,
/// turn by turn, which session runs next; any interleaving whatsoever is
/// allowed. Every session stays faithful to its own script, and how far
/// each has come is a function of its own reads and its own turn count
/// alone — no session, however idle, slow or failed, affects any other's
/// progress.
pub fn pump_interleaved(scripts: &Vec<Vec<ReadOutcome>>, schedule: &Vec<usize>) -> (runs: Vec<
    DirectionRun,
>)
    requires
        forall|s: int| 0 <= s < schedule@.len() ==> (#[trigger] schedule@[s]) < scripts@.len(),
    ensures
        runs@.len() == scripts@.len(),
        forall|k: int| 0 <= k < runs@.len() ==> run_tracks(#[trigger] runs@[k], scripts@[k]@),
        forall|k: int|
            0 <= k < runs@.len() ==> (#[trigger] runs@[k]).consumed == consumed_after(
                events(scripts@[k]@),
                turns(schedule@, k),
            ),
{
    let mut runs: Vec<DirectionRun> = Vec::new();
    let mut k: usize = 0;
    while k < scripts.len()
        invariant
            k <= scripts@.len(),
            runs@.len() == k,
            forall|j: int| 0 <= j < k ==> run_tracks(#[trigger] runs@[j], scripts@[j]@),
            forall|j: int| 0 <= j < k ==> (#[trigger] runs@[j]).consumed == 0,
        decreases scripts@.len() - k,
    {
        let r = DirectionRun::begin();
        proof {
            lemma_fresh_run_tracks(r, scripts@[k as int]@);
        }
        runs.push(r);
        k = k + 1;
    }
    proof {
        assert(schedule@.take(0) =~= Seq::<usize>::empty());
    }
    let mut s: usize = 0;
    while s < schedule.len()
        invariant
            s <= schedule@.len(),
            runs@.len() == scripts@.len(),
            forall|s2: int| 0 <= s2 < schedule@.len() ==> (#[trigger] schedule@[s2])
                < scripts@.len(),
            forall|j: int| 0 <= j < runs@.len() ==> run_tracks(#[trigger] runs@[j], scripts@[j]@),
            forall|j: int|
                0 <= j < runs@.len() ==> (#[trigger] runs@[j]).consumed == consumed_after(
                    events(scripts@[j]@),
                    turns(schedule@.take(s as int), j),
                ),
        decreases schedule@.len() - s,
    {
        let idx = schedule[s];
        let ghost before = runs@;
        let mut r = runs.remove(idx);
        r.step(&scripts[idx]);
        runs.insert(idx, r);
        proof {
            assert(runs@ =~= before.update(idx as int, r));
            assert forall|j: int| 0 <= j < runs@.len() implies (#[trigger] runs@[j]).consumed
                == consumed_after(events(scripts@[j]@), turns(schedule@.take(s + 1), j)) by {
                lemma_turns_extend(schedule@, s as int, j);
                if j == idx as int {
                    let t = events(scripts@[j]@);
                    let m = turns(schedule@.take(s as int), j);
                    assert(before[j].consumed == consumed_after(t, m));
                    assert(consumed_after(t, m + 1) == (if consumed_after(t, m) < t.len()
                        && direction_end(t.take(consumed_after(t, m) as int))
                        == DirectionEnd::StillOpen {
                        consumed_after(t, m) + 1nat
                    } else {
                        consumed_after(t, m)
                    }));
                } else {
                    assert(runs@[j] == before[j]);
                }
            }
        }
        s = s + 1;
    }
    proof {
        assert(schedule@.take(schedule@.len() as int) =~= schedule@);
    }
    runs
}

/// Round-trip fidelity: for every sequence of data chunks a source writes
/// before closing its write side cleanly, the direction delivers to the peer
/// exactly the concatenation of those chunks, in order, and reports a clean
/// end-of-stream. Both directions of a session run the same logic, so this
/// holds client-to-upstream and upstream-to-client alike.
pub proof fn lemma_round_trip_fidelity(chunks: Seq<Seq<u8>>)
    ensures
        forwarded(chunks.map_values(|b: Seq<u8>| ReadEvent::Data(b)).push(ReadEvent::Eof))
            == chunks.flatten(),
        direction_end(chunks.map_values(|b: Seq<u8>| ReadEvent::Data(b)).push(ReadEvent::Eof))
            == DirectionEnd::CleanEof,
    decreases chunks.len(),
{
    let t = chunks.map_values(|b: Seq<u8>| ReadEvent::Data(b)).push(ReadEvent::Eof);
    if chunks.len() == 0 {
        assert(t[0] == ReadEvent::Eof);
        assert(chunks.flatten() =~= Seq::<u8>::empty());
    } else {
        let rest = chunks.drop_first();
        lemma_round_trip_fidelity(rest);
        assert(t[0] == ReadEvent::Data(chunks[0]));
        assert(t.drop_first() =~= rest.map_values(|b: Seq<u8>| ReadEvent::Data(b)).push(
            ReadEvent::Eof,
        ));
        assert(chunks.flatten() == chunks[0] + rest.flatten());
    }
}

/// The linger-free teardown choice, stated over the pump: once a direction
/// has observed end-of-stream or an error, nothing queued behind that point —
/// `later` — is ever delivered, and how the direction ended does not change.
/// A drain-before-close policy would not satisfy this; the relay closes
/// immediately instead.
pub proof fn lemma_nothing_delivered_after_close(t: Seq<ReadEvent>, later: Seq<ReadEvent>)
    requires
        direction_end(t) != DirectionEnd::StillOpen,
    ensures
        forwarded(t + later) == forwarded(t),
        direction_end(t + later) == direction_end(t),
    decreases t.len(),
{
    assert(t.len() > 0);
    assert((t + later)[0] == t[0]);
    match t[0] {
        ReadEvent::Data(b) => {
            assert((t + later).drop_first() =~= t.drop_first() + later);
            lemma_nothing_delivered_after_close(t.drop_first(), later);
        },
        _ => {},
    }
}

} // verus!
