use vstd::prelude::*;
use vstd::utf8::valid_utf8;

use crate::outcome::Outcome;
use crate::text::is_text;

verus! {

/// Capacity of the transfer buffer, in bytes: the most one read may return.
pub const CAPACITY: usize = 100;

/// The transfer buffer after a read that returned `data`: the bytes read,
/// then zero fill up to the capacity.
pub open spec fn padded(data: Seq<u8>) -> Seq<u8> {
    data + Seq::new((CAPACITY - data.len()) as nat, |i: int| 0u8)
}

/// Builds the transfer buffer for a read that returned `data`.
pub fn fill_buffer(data: &[u8]) -> (buf: Vec<u8>)
    requires
        data@.len() <= CAPACITY,
    ensures
        buf@ == padded(data@),
{
    let mut buf: Vec<u8> = Vec::new();
    let mut i: usize = 0;
    while i < data.len()
        invariant
            i <= data@.len(),
            data@.len() <= CAPACITY,
            buf@ == data@.subrange(0, i as int),
        decreases data@.len() - i,
    {
        buf.push(data[i]);
        i = i + 1;
    }
    assert(buf@ =~= data@);
    while i < CAPACITY
        invariant
            data@.len() <= i <= CAPACITY,
            buf@ =~= data@ + Seq::new((i - data@.len()) as nat, |j: int| 0u8),
        decreases CAPACITY - i,
    {
        buf.push(0u8);
        i = i + 1;
        assert(buf@ =~= data@ + Seq::new((i - data@.len()) as nat, |j: int| 0u8));
    }
    buf
}

/// One of the two channels that a relay owns.
#[derive(Clone, Copy, Debug, PartialEq, Eq, Structural)]
pub enum Endpoint {
    /// The channel read from.
    Inbound,
    /// The channel written to.
    Outbound,
}

/// What the driver reports after performing the relay's last action.
#[derive(Debug)]
pub enum Event {
    /// The driver holds both endpoints and nothing has been done yet.
    Start,
    /// The read returned these bytes; none at end of stream.
    Read(Vec<u8>),
    /// The read failed at the transport level.
    ReadFault,
    /// The write succeeded and the outbound channel accepted this many bytes.
    Wrote(usize),
    /// The write failed at the transport level.
    WriteFault,
    /// The endpoint named by the last action has been closed.
    Released,
}

/// What the relay asks its driver to do next.
#[derive(Debug)]
pub enum Action {
    /// Read once, up to `CAPACITY` bytes, from the inbound endpoint.
    Read,
    /// Write these bytes once to the outbound endpoint.
    Write(Vec<u8>),
    /// Close this endpoint.
    Release(Endpoint),
    /// Report this outcome; the run is over.
    Finish(Outcome),
}

/// The mathematical value of an [`Action`].
pub enum ActionView {
    Read,
    Write(Seq<u8>),
    Release(Endpoint),
    Finish(Outcome),
}

impl View for Action {
    type V = ActionView;

    open spec fn view(&self) -> ActionView {
        match self {
            Action::Read => ActionView::Read,
            Action::Write(b) => ActionView::Write(b@),
            Action::Release(e) => ActionView::Release(*e),
            Action::Finish(o) => ActionView::Finish(*o),
        }
    }
}

/// Where a relay run stands.
#[derive(Clone, Copy, Debug, PartialEq, Eq, Structural)]
pub enum Phase {
    /// Nothing done yet.
    Idle,
    /// The read was asked for.
    Reading,
    /// A write of this many bytes was asked for.
    Writing(usize),
    /// The run has this outcome; the inbound endpoint is being closed.
    ReleasingInbound(Outcome),
    /// The run has this outcome; the outbound endpoint is being closed.
    ReleasingOutbound(Outcome),
    /// Both endpoints are closed and this outcome was reported.
    Done(Outcome),
}

impl Phase {
    /// True when `ev` is a report that the driver can give in this phase.
    pub open spec fn accepts(self, ev: Event) -> bool {
        match self {
            Phase::Idle => ev is Start,
            Phase::Reading => ev is ReadFault || (ev matches Event::Read(d) && d@.len()
                <= CAPACITY),
            Phase::Writing(_) => ev is Wrote || ev is WriteFault,
            Phase::ReleasingInbound(_) => ev is Released,
            Phase::ReleasingOutbound(_) => ev is Released,
            Phase::Done(_) => false,
        }
    }

    /// The next phase, and the action asked for, when `ev` comes in this phase.
    ///
    /// The read is validated over the whole zero-filled buffer, not only over
    /// the bytes read; a write that accepts fewer bytes than were read fails.
    /// Every outcome closes the inbound endpoint, then the outbound one, and
    /// only then is reported.
    pub open spec fn next(self, ev: Event) -> (Phase, ActionView) {
        match self {
            Phase::Idle => (Phase::Reading, ActionView::Read),
            Phase::Reading => match ev {
                Event::Read(d) => if valid_utf8(padded(d@)) {
                    (Phase::Writing(d@.len() as usize), ActionView::Write(d@))
                } else {
                    (
                        Phase::ReleasingInbound(Outcome::DecodeFailed),
                        ActionView::Release(Endpoint::Inbound),
                    )
                },
                _ => (
                    Phase::ReleasingInbound(Outcome::ReadFailed),
                    ActionView::Release(Endpoint::Inbound),
                ),
            },
            Phase::Writing(n) => {
                let o = match ev {
                    Event::Wrote(k) => if k < n {
                        Outcome::WriteFailed
                    } else {
                        Outcome::Success
                    },
                    _ => Outcome::WriteFailed,
                };
                (Phase::ReleasingInbound(o), ActionView::Release(Endpoint::Inbound))
            },
            Phase::ReleasingInbound(o) => (
                Phase::ReleasingOutbound(o),
                ActionView::Release(Endpoint::Outbound),
            ),
            Phase::ReleasingOutbound(o) => (Phase::Done(o), ActionView::Finish(o)),
            Phase::Done(o) => (Phase::Done(o), ActionView::Finish(o)),
        }
    }
}

/// A single-shot relay from an inbound to an outbound endpoint.
///
/// The driver hands it `Event::Start`, performs each action it returns, and
/// hands back what that action produced, until the action is `Finish`.
pub struct Relay {
    phase: Phase,
}

impl View for Relay {
    type V = Phase;

    closed spec fn view(&self) -> Phase {
        self.phase
    }
}

impl Relay {
    /// A relay that has done nothing yet.
    pub fn new() -> (r: Relay)
        ensures
            r@ == Phase::Idle,
    {
        Relay { phase: Phase::Idle }
    }

    /// Where the run stands.
    pub fn phase(&self) -> (p: Phase)
        ensures
            p == self@,
    {
        self.phase
    }

    /// True when `ev` is a report that the relay can take now.
    pub fn accepts(&self, ev: &Event) -> (r: bool)
        ensures
            r == self@.accepts(*ev),
    {
        match self.phase {
            Phase::Idle => matches!(ev, Event::Start),
            Phase::Reading => match ev {
                Event::Read(d) => d.len() <= CAPACITY,
                Event::ReadFault => true,
                _ => false,
            },
            Phase::Writing(_) => matches!(ev, Event::Wrote(_) | Event::WriteFault),
            Phase::ReleasingInbound(_) => matches!(ev, Event::Released),
            Phase::ReleasingOutbound(_) => matches!(ev, Event::Released),
            Phase::Done(_) => false,
        }
    }

    /// Takes the driver's report of the last action and returns the next one.
    pub fn step(&mut self, ev: Event) -> (a: Action)
        requires
            old(self)@.accepts(ev),
        ensures
            (final(self)@, a@) == old(self)@.next(ev),
    {
        match self.phase {
            Phase::Idle => {
                self.phase = Phase::Reading;
                Action::Read
            },
            Phase::Reading => match ev {
                Event::Read(data) => {
                    let buf = fill_buffer(data.as_slice());
                    if is_text(buf.as_slice()) {
                        self.phase = Phase::Writing(data.len());
                        Action::Write(data)
                    } else {
                        self.phase = Phase::ReleasingInbound(Outcome::DecodeFailed);
                        Action::Release(Endpoint::Inbound)
                    }
                },
                _ => {
                    self.phase = Phase::ReleasingInbound(Outcome::ReadFailed);
                    Action::Release(Endpoint::Inbound)
                },
            },
            Phase::Writing(n) => {
                let o = match ev {
                    Event::Wrote(k) => if k < n {
                        Outcome::WriteFailed
                    } else {
                        Outcome::Success
                    },
                    _ => Outcome::WriteFailed,
                };
                self.phase = Phase::ReleasingInbound(o);
                Action::Release(Endpoint::Inbound)
            },
            Phase::ReleasingInbound(o) => {
                self.phase = Phase::ReleasingOutbound(o);
                Action::Release(Endpoint::Outbound)
            },
            Phase::ReleasingOutbound(o) => {
                self.phase = Phase::Done(o);
                Action::Finish(o)
            },
            Phase::Done(o) => Action::Finish(o),
        }
    }
}

} // verus!
