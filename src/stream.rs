//! The reply stream of an address dump: classifying each reply and
//! deciding, event by event, when the query is over and with what result.

use vstd::prelude::*;
use crate::record::{
    AddrRecord, accepted, addr_view, lemma_accepted_record_yields_address,
    is_address_attr, record_address, record_candidate,
};

verus! {

/// Message type of a kernel-reported error record (`NLMSG_ERROR`).
pub const NLMSG_ERROR: u16 = 2;

/// Message type of the end-of-dump marker (`NLMSG_DONE`).
pub const NLMSG_DONE: u16 = 3;

/// Message type of an interface-address record (`RTM_NEWADDR`).
pub const RTM_NEWADDR: u16 = 20;

/// What followed the header of one reply.
pub enum Body {
    /// A decoded interface-address record.
    Record(AddrRecord),
    /// An error record reported by the kernel.
    KernelError,
    /// No body, or one that carries nothing this query reads.
    Empty,
}

/// One reply as received: the message type from its header, and its body.
pub struct Reply {
    pub nl_type: u16,
    pub body: Body,
}

/// The meaning of one reply for the query.
pub enum Envelope {
    /// An interface-address record.
    Data(AddrRecord),
    /// The normal end of the dump.
    Done,
    /// An error that the kernel reported; it ends the query.
    KernelError,
    /// Anything else; it is passed over.
    Unknown,
}

/// What the transport handed over: a reply, a failure to send or receive,
/// or the end of the stream without a done marker.
pub enum Event {
    Received(Reply),
    TransportFailed,
    StreamEnded,
}

/// What the query does next.
pub enum Step {
    /// Receive the next reply.
    Continue,
    /// Stop, with this result.
    Finish(Option<[u8; 16]>),
}

/// The classification of a reply by its message type and body.
pub open spec fn envelope_of(m: Reply) -> Envelope {
    match m.body {
        Body::KernelError => Envelope::KernelError,
        Body::Record(r) => {
            if m.nl_type == NLMSG_DONE {
                Envelope::Done
            } else if m.nl_type == NLMSG_ERROR {
                Envelope::KernelError
            } else if m.nl_type == RTM_NEWADDR {
                Envelope::Data(r)
            } else {
                Envelope::Unknown
            }
        },
        Body::Empty => {
            if m.nl_type == NLMSG_DONE {
                Envelope::Done
            } else if m.nl_type == NLMSG_ERROR {
                Envelope::KernelError
            } else {
                Envelope::Unknown
            }
        },
    }
}

/// The effect of one event: `None` to go on receiving, `Some(x)` to stop
/// with the result `x`.
pub open spec fn event_outcome(e: Event) -> Option<Option<Seq<u8>>> {
    match e {
        Event::Received(m) => match envelope_of(m) {
            Envelope::Data(r) => match record_address(r) {
                Some(a) => Some(Some(a)),
                None => None,
            },
            Envelope::Unknown => None,
            Envelope::Done => Some(None),
            Envelope::KernelError => Some(None),
        },
        Event::TransportFailed => Some(None),
        Event::StreamEnded => Some(None),
    }
}

/// The result of a query that observes the events `evs` in order: the
/// address of the first accepted record, unless the stream ends or fails
/// before it.
pub open spec fn query_result(evs: Seq<Event>) -> Option<Seq<u8>>
    decreases evs.len(),
{
    if evs.len() == 0 {
        None
    } else {
        match event_outcome(evs[0]) {
            Some(x) => x,
            None => query_result(evs.drop_first()),
        }
    }
}

/// The meaning of a step as an event outcome.
pub open spec fn step_outcome(s: Step) -> Option<Option<Seq<u8>>> {
    match s {
        Step::Continue => None,
        Step::Finish(o) => Some(addr_view(o)),
    }
}

/// Events that let the query go on do not change its result: the result is
/// that of the events after them.
pub proof fn lemma_skip_passed_events(evs: Seq<Event>, i: int)
    requires
        0 <= i <= evs.len(),
        forall|j: int| 0 <= j < i ==> #[trigger] event_outcome(evs[j]) is None,
    ensures
        query_result(evs) == query_result(evs.subrange(i, evs.len() as int)),
    decreases i,
{
    if i > 0 {
        let rest = evs.drop_first();
        assert forall|j: int| 0 <= j < i - 1 implies #[trigger] event_outcome(rest[j]) is None by {
            assert(rest[j] == evs[j + 1]);
        }
        lemma_skip_passed_events(rest, i - 1);
        assert(rest.subrange(i - 1, rest.len() as int) =~= evs.subrange(i, evs.len() as int));
    } else {
        assert(evs.subrange(0, evs.len() as int) =~= evs);
    }
}

/// The first record that passes the policy and carries an address decides
/// the query, whatever follows it: the first match wins, not the last.
pub proof fn lemma_first_match_wins(evs: Seq<Event>, i: int, r: AddrRecord, k: int)
    requires
        0 <= i < evs.len(),
        forall|j: int| 0 <= j < i ==> #[trigger] event_outcome(evs[j]) is None,
        evs[i] is Received,
        envelope_of(evs[i]->Received_0) == Envelope::Data(r),
        accepted(r),
        0 <= k < r.attrs@.len(),
        is_address_attr(r.attrs@[k]),
        forall|j: int| 0 <= j < k ==> !is_address_attr(#[trigger] r.attrs@[j]),
    ensures
        query_result(evs) == Some(r.attrs@[k].payload@),
{
    lemma_accepted_record_yields_address(r, k);
    lemma_skip_passed_events(evs, i);
    assert(evs.subrange(i, evs.len() as int)[0] == evs[i]);
}

/// A stream in which no record both passes the policy and carries an
/// address, including an empty dump that ends at once, yields no address.
pub proof fn lemma_no_candidate_yields_none(evs: Seq<Event>)
    requires
        forall|i: int|
            0 <= i < evs.len() && #[trigger] evs[i] is Received && envelope_of(evs[i]->Received_0) is Data
                ==> record_address(envelope_of(evs[i]->Received_0)->Data_0) is None,
    ensures
        query_result(evs) is None,
    decreases evs.len(),
{
    if evs.len() > 0 {
        let rest = evs.drop_first();
        assert forall|i: int|
            0 <= i < rest.len() && #[trigger] rest[i] is Received && envelope_of(rest[i]->Received_0) is Data
                implies record_address(envelope_of(rest[i]->Received_0)->Data_0) is None by {
            assert(rest[i] == evs[i + 1]);
        }
        lemma_no_candidate_yields_none(rest);
    }
}

/// A transport failure before any match ends the query with no address.
pub proof fn lemma_transport_failure_yields_none(evs: Seq<Event>, i: int)
    requires
        0 <= i < evs.len(),
        forall|j: int| 0 <= j < i ==> #[trigger] event_outcome(evs[j]) is None,
        evs[i] is TransportFailed,
    ensures
        query_result(evs) is None,
{
    lemma_skip_passed_events(evs, i);
    assert(evs.subrange(i, evs.len() as int)[0] == evs[i]);
}

/// Classifies one reply: the done marker and kernel errors by their type,
/// address records by theirs, and everything else as unknown.
pub fn decode_envelope(m: Reply) -> (e: Envelope)
    ensures
        e == envelope_of(m),
{
    let t = m.nl_type;
    match m.body {
        Body::KernelError => Envelope::KernelError,
        Body::Record(r) => {
            if t == NLMSG_DONE {
                Envelope::Done
            } else if t == NLMSG_ERROR {
                Envelope::KernelError
            } else if t == RTM_NEWADDR {
                Envelope::Data(r)
            } else {
                Envelope::Unknown
            }
        },
        Body::Empty => {
            if t == NLMSG_DONE {
                Envelope::Done
            } else if t == NLMSG_ERROR {
                Envelope::KernelError
            } else {
                Envelope::Unknown
            }
        },
    }
}

/// Decides what the query does after one event. A record that passes the
/// policy and carries an address ends the query with that address; the done
/// marker, a kernel error, a transport failure and the end of the stream end
/// it with no address; anything else lets it go on.
pub fn step(e: Event) -> (s: Step)
    ensures
        step_outcome(s) == event_outcome(e),
        e is TransportFailed ==> s == Step::Finish(None),
{
    match e {
        Event::Received(m) => match decode_envelope(m) {
            Envelope::Data(r) => match record_candidate(&r) {
                Some(a) => Step::Finish(Some(a)),
                None => Step::Continue,
            },
            Envelope::Unknown => Step::Continue,
            Envelope::Done => Step::Finish(None),
            Envelope::KernelError => Step::Finish(None),
        },
        Event::TransportFailed => Step::Finish(None),
        Event::StreamEnded => Step::Finish(None),
    }
}

/// Runs the query over events that have already been collected, in order.
pub fn select_address(evs: Vec<Event>) -> (found: Option<[u8; 16]>)
    ensures
        addr_view(found) == query_result(evs@),
{
    let ghost all = evs@;
    let mut rest = evs;
    let ghost mut seen: int = 0;
    while rest.len() > 0
        invariant
            0 <= seen <= all.len(),
            all == evs@,
            rest@ == all.subrange(seen, all.len() as int),
            query_result(all) == query_result(rest@),
        decreases rest@.len(),
    {
        let ghost before = rest@;
        let e = rest.remove(0);
        proof {
            assert(rest@ =~= before.drop_first());
            assert(rest@ =~= all.subrange(seen + 1, all.len() as int));
            assert(before[0] == e);
        }
        let ghost ev = e;
        let s = step(e);
        proof {
            assert(before.len() > 0 && before[0] == ev);
            assert(rest@ == before.drop_first());
        }
        match s {
            Step::Finish(o) => {
                return o;
            },
            Step::Continue => {},
        }
        proof {
            seen = seen + 1;
        }
    }
    None
}

} // verus!
