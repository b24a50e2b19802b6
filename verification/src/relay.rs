//! The output relay: turns the worker's raw output into tagged line events.
//!
//! The embedding shell drains the worker's standard-output and
//! standard-error streams line by line and feeds each arrival in as a
//! `WorkerEvent`; `relay_event` decides, for every single arrival, whether
//! and what to publish, and `relay_lines` is the drain loop over a batch of
//! arrivals. Decoding is total: a line that is not valid text is repaired
//! with the replacement character, never rejected, so no byte sequence can
//! stop the relay.

use vstd::prelude::*;
use vstd::utf8::decode_utf8;
use vstd::utf8::valid_utf8;

verus! {

/// Which stream of the worker a line arrived on.
#[derive(Clone, Copy, Debug, PartialEq, Eq, Structural)]
pub enum StreamTag {
    Stdout,
    Stderr,
}

/// One arrival from the worker's output channels, as handed in by the
/// shell: a raw line from one of the two streams, or anything else (a
/// termination notice, a channel error), which the relay ignores.
pub enum WorkerEvent {
    OutLine(Vec<u8>),
    ErrLine(Vec<u8>),
    Other,
}

/// One published line event: the origin stream and the decoded text.
pub struct LineEvent {
    pub tag: StreamTag,
    pub line: String,
}

impl View for LineEvent {
    type V = (StreamTag, Seq<char>);

    open spec fn view(&self) -> (StreamTag, Seq<char>) {
        (self.tag, self.line@)
    }
}

/// The text that lossy decoding yields for the given bytes.
pub uninterp spec fn lossy_text(bytes: Seq<u8>) -> Seq<char>;

/// Relies on `alloc::string::String::from_utf8_lossy`: the result is a
/// function of the bytes alone; a valid UTF-8 sequence decodes to exactly
/// its characters, and an invalid one is repaired with the replacement
/// character rather than rejected.
#[verifier::external_body]
fn decode_lossy(bytes: &Vec<u8>) -> (r: String)
    ensures
        r@ == lossy_text(bytes@),
        valid_utf8(bytes@) ==> r@ == decode_utf8(bytes@),
        !valid_utf8(bytes@) ==> r@.contains('\u{FFFD}'),
{
    String::from_utf8_lossy(bytes.as_slice()).into_owned()
}

/// What the relay publishes for one arrival: one event carrying the lossy
/// decoding of an output or error line, nothing for anything else.
pub open spec fn spec_relay_event(ev: WorkerEvent) -> Option<(StreamTag, Seq<char>)> {
    match ev {
        WorkerEvent::OutLine(b) => Some((StreamTag::Stdout, lossy_text(b@))),
        WorkerEvent::ErrLine(b) => Some((StreamTag::Stderr, lossy_text(b@))),
        WorkerEvent::Other => None,
    }
}

/// Everything the relay publishes for a sequence of arrivals, in order.
pub open spec fn spec_relay_log(evs: Seq<WorkerEvent>) -> Seq<(StreamTag, Seq<char>)>
    decreases evs.len(),
{
    if evs.len() == 0 {
        Seq::empty()
    } else {
        spec_relay_log(evs.drop_last()) + (match spec_relay_event(evs.last()) {
            Some(e) => seq![e],
            None => Seq::empty(),
        })
    }
}

/// The raw payloads that arrived on stream `tag`, in arrival order.
pub open spec fn spec_stream_payloads(evs: Seq<WorkerEvent>, tag: StreamTag) -> Seq<Seq<u8>>
    decreases evs.len(),
{
    if evs.len() == 0 {
        Seq::empty()
    } else {
        spec_stream_payloads(evs.drop_last(), tag) + (match evs.last() {
            WorkerEvent::OutLine(b) => if tag is Stdout {
                seq![b@]
            } else {
                Seq::empty()
            },
            WorkerEvent::ErrLine(b) => if tag is Stderr {
                seq![b@]
            } else {
                Seq::empty()
            },
            WorkerEvent::Other => Seq::empty(),
        })
    }
}

/// The texts of the published events tagged `tag`, in publication order.
pub open spec fn spec_log_texts(log: Seq<(StreamTag, Seq<char>)>, tag: StreamTag) -> Seq<Seq<char>>
    decreases log.len(),
{
    if log.len() == 0 {
        Seq::empty()
    } else {
        spec_log_texts(log.drop_last(), tag) + (if log.last().0 == tag {
            seq![log.last().1]
        } else {
            Seq::empty()
        })
    }
}

/// A published event batch, abstracted to tags and texts.
pub open spec fn spec_events_view(events: Seq<LineEvent>) -> Seq<(StreamTag, Seq<char>)> {
    events.map_values(|e: LineEvent| e@)
}

/// Decides what to publish for one arrival from the worker.
///
/// An output or error line always yields exactly one event, tagged with its
/// stream and carrying the lossy decoding of the bytes — when the bytes are
/// not valid UTF-8 the text shows the replacement character instead of the
/// offending sequence. Any other arrival yields nothing. No arrival is an
/// error: the relay outlives every malformed line.
pub fn relay_event(ev: &WorkerEvent) -> (r: Option<LineEvent>)
    ensures
        (match r {
            Some(e) => spec_relay_event(*ev) == Some(e@),
            None => spec_relay_event(*ev) is None,
        }),
        (match *ev {
            WorkerEvent::OutLine(b) => (!valid_utf8(b@) ==> (r matches Some(e) && e.line@.contains(
                '\u{FFFD}',
            ))),
            WorkerEvent::ErrLine(b) => (!valid_utf8(b@) ==> (r matches Some(e) && e.line@.contains(
                '\u{FFFD}',
            ))),
            WorkerEvent::Other => r is None,
        }),
{
    match ev {
        WorkerEvent::OutLine(b) => Some(LineEvent { tag: StreamTag::Stdout, line: decode_lossy(b) }),
        WorkerEvent::ErrLine(b) => Some(LineEvent { tag: StreamTag::Stderr, line: decode_lossy(b) }),
        WorkerEvent::Other => None,
    }
}

/// The drain loop over a batch of arrivals: publishes exactly the events of
/// `spec_relay_log`, in order.
pub fn relay_lines(arrivals: &Vec<WorkerEvent>) -> (events: Vec<LineEvent>)
    ensures
        spec_events_view(events@) == spec_relay_log(arrivals@),
{
    let mut events: Vec<LineEvent> = Vec::new();
    let n = arrivals.len();
    assert(spec_events_view(events@) =~= spec_relay_log(arrivals@.take(0)));
    for i in 0..n
        invariant
            n == arrivals@.len(),
            spec_events_view(events@) == spec_relay_log(arrivals@.take(i as int)),
    {
        let ghost prefix = arrivals@.take(i as int);
        if let Some(e) = relay_event(&arrivals[i]) {
            events.push(e);
        }
        proof {
            assert(arrivals@.take(i + 1).drop_last() =~= prefix);
            assert(arrivals@.take(i + 1).last() == arrivals@[i as int]);
            assert(spec_events_view(events@) =~= spec_relay_log(arrivals@.take(i + 1)));
        }
    }
    proof {
        assert(arrivals@.take(n as int) =~= arrivals@);
    }
    events
}

/// Line-fidelity law: for each stream, the relay publishes exactly one
/// event per line that arrived on that stream — so exactly as many events
/// as lines — in arrival order, each carrying the lossy decoding of its
/// line's bytes.
pub proof fn lemma_line_fidelity(evs: Seq<WorkerEvent>, tag: StreamTag)
    ensures
        spec_log_texts(spec_relay_log(evs), tag) == spec_stream_payloads(evs, tag).map_values(
            |b: Seq<u8>| lossy_text(b),
        ),
        spec_log_texts(spec_relay_log(evs), tag).len() == spec_stream_payloads(evs, tag).len(),
    decreases evs.len(),
{
    let f = |b: Seq<u8>| lossy_text(b);
    if evs.len() == 0 {
        assert(spec_log_texts(spec_relay_log(evs), tag) =~= spec_stream_payloads(evs, tag).map_values(f));
    } else {
        let rest = evs.drop_last();
        lemma_line_fidelity(rest, tag);
        let log = spec_relay_log(evs);
        let restlog = spec_relay_log(rest);
        match spec_relay_event(evs.last()) {
            Some(e) => {
                assert(log =~= restlog.push(e));
                assert(log.drop_last() =~= restlog);
                assert(spec_log_texts(log, tag) =~= spec_stream_payloads(evs, tag).map_values(f));
            },
            None => {
                assert(log =~= restlog);
                assert(spec_stream_payloads(evs, tag) =~= spec_stream_payloads(rest, tag));
                assert(spec_log_texts(log, tag) =~= spec_stream_payloads(evs, tag).map_values(f));
            },
        }
    }
}

/// The relay log of two batches, one after the other, is the two logs one
/// after the other: what the relay publishes for later arrivals does not
/// depend on what came before.
pub proof fn lemma_relay_log_append(a: Seq<WorkerEvent>, b: Seq<WorkerEvent>)
    ensures
        spec_relay_log(a + b) == spec_relay_log(a) + spec_relay_log(b),
    decreases b.len(),
{
    if b.len() == 0 {
        assert(a + b =~= a);
        assert(spec_relay_log(a) + spec_relay_log(b) =~= spec_relay_log(a));
    } else {
        lemma_relay_log_append(a, b.drop_last());
        assert((a + b).drop_last() =~= a + b.drop_last());
        assert((a + b).last() == b.last());
        assert(spec_relay_log(a + b) =~= spec_relay_log(a) + spec_relay_log(b));
    }
}

/// Continuation law: one arrival — malformed bytes included — contributes
/// its own event and nothing else; every arrival before and after it is
/// relayed exactly as it would have been on its own.
pub proof fn lemma_relay_continues(
    before: Seq<WorkerEvent>,
    ev: WorkerEvent,
    after: Seq<WorkerEvent>,
)
    ensures
        spec_relay_log(before + seq![ev] + after) == spec_relay_log(before) + (
        match spec_relay_event(ev) {
            Some(e) => seq![e],
            None => Seq::empty(),
        }) + spec_relay_log(after),
{
    lemma_relay_log_append(before + seq![ev], after);
    lemma_relay_log_append(before, seq![ev]);
    let single = seq![ev];
    assert(single.len() == 1);
    assert(single.last() == ev);
    assert(single.drop_last() =~= Seq::<WorkerEvent>::empty());
    assert(spec_relay_log(single.drop_last()) =~= Seq::<(StreamTag, Seq<char>)>::empty());
    assert(spec_relay_log(single) =~= (match spec_relay_event(ev) {
        Some(e) => seq![e],
        None => Seq::empty(),
    }));
}

} // verus!
