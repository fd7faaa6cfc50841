use vstd::prelude::*;
use vstd::utf8::*;

use crate::outcome::Outcome;
use crate::relay::{ActionView, CAPACITY, Endpoint, Event, Phase, padded};

verus! {

/// What a driver reports after action `a` when its read yields `read` and its
/// write yields `write`; a release always succeeds.
pub open spec fn reply(a: ActionView, read: Event, write: Event) -> Event {
    match a {
        ActionView::Read => read,
        ActionView::Write(_) => write,
        _ => Event::Released,
    }
}

/// The actions asked for from phase `p` on, when `ev` comes next and the
/// driver answers as `reply` says, for at most `fuel` steps.
pub open spec fn run_from(p: Phase, ev: Event, read: Event, write: Event, fuel: nat) -> Seq<
    ActionView,
>
    decreases fuel,
{
    if fuel == 0 || !p.accepts(ev) {
        Seq::empty()
    } else {
        let (q, a) = p.next(ev);
        seq![a] + run_from(q, reply(a, read, write), read, write, (fuel - 1) as nat)
    }
}

/// Every action of a whole relay run from a fresh relay, when the read yields
/// `read` and the write yields `write`. A run takes at most five steps, so the
/// bound of eight cuts nothing off.
pub open spec fn session(read: Event, write: Event) -> Seq<ActionView> {
    run_from(Phase::Idle, Event::Start, read, write, 8)
}

/// True when `ev` is something a read can yield.
pub open spec fn is_read_reply(ev: Event) -> bool {
    ev is ReadFault || (ev matches Event::Read(d) && d@.len() <= CAPACITY)
}

/// True when `ev` is something a write can yield.
pub open spec fn is_write_reply(ev: Event) -> bool {
    ev is WriteFault || ev is Wrote
}

/// How often `a` occurs in `s`.
pub open spec fn count(s: Seq<ActionView>, a: ActionView) -> nat
    decreases s.len(),
{
    if s.len() == 0 {
        0
    } else {
        count(s.drop_first(), a) + if s[0] == a {
            1nat
        } else {
            0nat
        }
    }
}

/// The payloads of the writes in `s`, in order: what the outbound endpoint
/// was handed.
pub open spec fn written(s: Seq<ActionView>) -> Seq<Seq<u8>>
    decreases s.len(),
{
    if s.len() == 0 {
        Seq::empty()
    } else {
        let rest = written(s.drop_first());
        match s[0] {
            ActionView::Write(b) => seq![b] + rest,
            _ => rest,
        }
    }
}

/// The outcome a run reports: that of its last action, if that is `Finish`.
pub open spec fn reported(s: Seq<ActionView>) -> Option<Outcome> {
    if s.len() > 0 && s.last() is Finish {
        Some(s.last()->Finish_0)
    } else {
        None
    }
}


/// The actions of a run whose read faults.
proof fn lemma_shape_read_fault(write: Event)
    ensures
        session(Event::ReadFault, write) =~= seq![
            ActionView::Read,
            ActionView::Release(Endpoint::Inbound),
            ActionView::Release(Endpoint::Outbound),
            ActionView::Finish(Outcome::ReadFailed),
        ],
{
    reveal_with_fuel(run_from, 6);
}

/// The actions of a run whose read yields bytes that do not pass validation.
proof fn lemma_shape_decode_failure(read: Event, write: Event)
    requires
        read matches Event::Read(d) && d@.len() <= CAPACITY && !valid_utf8(padded(d@)),
    ensures
        session(read, write) =~= seq![
            ActionView::Read,
            ActionView::Release(Endpoint::Inbound),
            ActionView::Release(Endpoint::Outbound),
            ActionView::Finish(Outcome::DecodeFailed),
        ],
{
    reveal_with_fuel(run_from, 6);
}

/// The actions of a run whose read passes validation, when the write ends in
/// outcome `o`.
proof fn lemma_shape_write(read: Event, write: Event, o: Outcome)
    requires
        read matches Event::Read(d) && d@.len() <= CAPACITY && valid_utf8(padded(d@)),
        is_write_reply(write),
        o == (match write {
            Event::Wrote(k) => if k < read->Read_0@.len() {
                Outcome::WriteFailed
            } else {
                Outcome::Success
            },
            _ => Outcome::WriteFailed,
        }),
    ensures
        session(read, write) =~= seq![
            ActionView::Read,
            ActionView::Write(read->Read_0@),
            ActionView::Release(Endpoint::Inbound),
            ActionView::Release(Endpoint::Outbound),
            ActionView::Finish(o),
        ],
{
    reveal_with_fuel(run_from, 7);
}


/// Whatever the read and the write yield, a run reads once, closes each
/// endpoint exactly once, and then reports an outcome as its last action and
/// only there.
pub proof fn lemma_each_endpoint_released_once(read: Event, write: Event)
    requires
        is_read_reply(read),
        is_write_reply(write),
    ensures
        count(session(read, write), ActionView::Read) == 1,
        count(session(read, write), ActionView::Release(Endpoint::Inbound)) == 1,
        count(session(read, write), ActionView::Release(Endpoint::Outbound)) == 1,
        reported(session(read, write)) is Some,
        forall|i: int|
            0 <= i < session(read, write).len() - 1 ==> session(read, write)[i] !is Finish,
{
    reveal_with_fuel(count, 6);
    let s = session(read, write);
    if read is ReadFault {
        lemma_shape_read_fault(write);
    } else if !valid_utf8(padded(read->Read_0@)) {
        lemma_shape_decode_failure(read, write);
    } else {
        let o = match write {
            Event::Wrote(k) => if k < read->Read_0@.len() {
                Outcome::WriteFailed
            } else {
                Outcome::Success
            },
            _ => Outcome::WriteFailed,
        };
        lemma_shape_write(read, write, o);
    }
}


/// Bytes that are all ASCII are well-formed UTF-8.
proof fn lemma_ascii_is_text(s: Seq<u8>)
    requires
        forall|i: int| 0 <= i < s.len() ==> s[i] <= 0x7f,
    ensures
        valid_utf8(s),
    decreases s.len(),
{
    if s.len() != 0 {
        let b = s[0];
        assert((b & 0x7f) <= 0x7f) by (bit_vector);
        assert(valid_first_scalar(s));
        lemma_ascii_is_text(pop_first_scalar(s));
    }
}

/// A run whose read faults reports `ReadFailed` and writes nothing.
pub proof fn lemma_read_fault_writes_nothing(write: Event)
    ensures
        reported(session(Event::ReadFault, write)) == Some(Outcome::ReadFailed),
        written(session(Event::ReadFault, write)) == Seq::<Seq<u8>>::empty(),
{
    reveal_with_fuel(written, 5);
    lemma_shape_read_fault(write);
}

/// A run whose read yields bytes that, zero-filled to the capacity, are not
/// well-formed UTF-8 reports `DecodeFailed` and writes nothing.
pub proof fn lemma_decode_failure_writes_nothing(data: Vec<u8>, write: Event)
    requires
        data@.len() <= CAPACITY,
        !valid_utf8(padded(data@)),
    ensures
        reported(session(Event::Read(data), write)) == Some(Outcome::DecodeFailed),
        written(session(Event::Read(data), write)) == Seq::<Seq<u8>>::empty(),
{
    reveal_with_fuel(written, 5);
    lemma_shape_decode_failure(Event::Read(data), write);
}

/// A run whose read passes validation, and whose write faults or accepts fewer
/// bytes than were read, hands the outbound endpoint the bytes read, once, and
/// reports `WriteFailed`.
pub proof fn lemma_short_write_fails(data: Vec<u8>, write: Event)
    requires
        data@.len() <= CAPACITY,
        valid_utf8(padded(data@)),
        write is WriteFault || (write matches Event::Wrote(k) && k < data@.len()),
    ensures
        reported(session(Event::Read(data), write)) == Some(Outcome::WriteFailed),
        written(session(Event::Read(data), write)) == seq![data@],
{
    reveal_with_fuel(written, 6);
    lemma_shape_write(Event::Read(data), write, Outcome::WriteFailed);
}

/// A run whose read passes validation, and whose write accepts all the bytes
/// read, hands the outbound endpoint exactly the bytes read, once, with no
/// fill, and reports `Success`.
pub proof fn lemma_full_write_succeeds(data: Vec<u8>, accepted: usize)
    requires
        data@.len() <= CAPACITY,
        valid_utf8(padded(data@)),
        accepted >= data@.len(),
    ensures
        reported(session(Event::Read(data), Event::Wrote(accepted))) == Some(Outcome::Success),
        written(session(Event::Read(data), Event::Wrote(accepted))) == seq![data@],
{
    reveal_with_fuel(written, 6);
    lemma_shape_write(Event::Read(data), Event::Wrote(accepted), Outcome::Success);
}

/// A read that returns no bytes leaves an all-zero buffer, which is
/// well-formed UTF-8: the run writes zero bytes and reports `Success`.
pub proof fn lemma_empty_read_succeeds(data: Vec<u8>, accepted: usize)
    requires
        data@.len() == 0,
    ensures
        reported(session(Event::Read(data), Event::Wrote(accepted))) == Some(Outcome::Success),
        written(session(Event::Read(data), Event::Wrote(accepted))) == seq![Seq::<u8>::empty()],
{
    lemma_ascii_is_text(padded(data@));
    assert(data@ =~= Seq::<u8>::empty());
    lemma_full_write_succeeds(data, accepted);
}

} // verus!
