//! The duplex relay between two streams, A and B, as a state machine.
//!
//! The caller races a read on each stream while the relay is reading, hands
//! what arrived to [`Relay::on_read`], writes what the relay asks for, and
//! reports the outcome to [`Relay::on_write`]. Any end of a stream, any
//! failure, ends the whole relay.
use vstd::prelude::*;

verus! {

/// The size of the buffer that each direction reads into.
pub const RELAY_BUFFER_SIZE: usize = 1024;

/// One of the two streams of a relay.
#[derive(PartialEq, Eq, Structural, Clone, Copy, Debug)]
pub enum Side {
    A,
    B,
}

/// The stream on the other side.
pub open spec fn other_spec(s: Side) -> Side {
    match s {
        Side::A => Side::B,
        Side::B => Side::A,
    }
}

/// The stream on the other side.
pub fn other(s: Side) -> (r: Side)
    ensures
        r == other_spec(s),
{
    match s {
        Side::A => Side::B,
        Side::B => Side::A,
    }
}

/// Where a relay stands.
#[derive(PartialEq, Eq, Structural, Clone, Copy, Debug)]
pub enum RelayPhase {
    /// Both reads are pending; the first to complete is handled.
    Reading,
    /// A chunk is being written to the given side.
    Writing(Side),
    /// The relay is over; both streams are dropped.
    Finished,
}

/// What a read on one stream gave.
#[derive(Clone, Debug, PartialEq, Eq)]
pub enum ReadOutcome {
    /// These bytes; none at all means the peer closed.
    Data(Vec<u8>),
    /// The peer closed the stream.
    Eof,
    /// The read failed.
    Failed,
}

/// What the caller does next.
#[derive(Clone, Debug, PartialEq, Eq)]
pub enum RelayAction {
    /// Wait for whichever stream has data first.
    ReadEither,
    /// Write all of `data` to stream `to` and report the outcome.
    Write { to: Side, data: Vec<u8> },
    /// Stop: drop both streams.
    Finish,
}

/// The abstract state of a relay: its phase, the chunk being written, and
/// per direction the bytes read from the source and written to the target.
pub struct RelayView {
    pub phase: RelayPhase,
    pub in_flight: Seq<u8>,
    pub read_from_a: Seq<u8>,
    pub written_to_b: Seq<u8>,
    pub read_from_b: Seq<u8>,
    pub written_to_a: Seq<u8>,
}

/// An event of a relay.
pub enum RelayEvent {
    /// A read on the given side gave these bytes.
    Data(Side, Seq<u8>),
    /// A read on the given side met the end of the stream or failed.
    End(Side),
    /// The pending write completed.
    WriteOk,
    /// The pending write failed.
    WriteFailed,
}

/// A relay that has not moved a byte.
pub open spec fn relay_start() -> RelayView {
    RelayView {
        phase: RelayPhase::Reading,
        in_flight: Seq::empty(),
        read_from_a: Seq::empty(),
        written_to_b: Seq::empty(),
        read_from_b: Seq::empty(),
        written_to_a: Seq::empty(),
    }
}

/// The state after event `e` in state `v`.
pub open spec fn relay_step(v: RelayView, e: RelayEvent) -> RelayView {
    let done = RelayView { phase: RelayPhase::Finished, ..v };
    match e {
        RelayEvent::Data(from, d) => if v.phase == RelayPhase::Reading && d.len() > 0 {
            if from == Side::A {
                RelayView {
                    phase: RelayPhase::Writing(Side::B),
                    in_flight: d,
                    read_from_a: v.read_from_a + d,
                    ..v
                }
            } else {
                RelayView {
                    phase: RelayPhase::Writing(Side::A),
                    in_flight: d,
                    read_from_b: v.read_from_b + d,
                    ..v
                }
            }
        } else {
            done
        },
        RelayEvent::End(_) => done,
        RelayEvent::WriteOk => match v.phase {
            RelayPhase::Writing(Side::B) => RelayView {
                phase: RelayPhase::Reading,
                in_flight: Seq::empty(),
                written_to_b: v.written_to_b + v.in_flight,
                ..v
            },
            RelayPhase::Writing(Side::A) => RelayView {
                phase: RelayPhase::Reading,
                in_flight: Seq::empty(),
                written_to_a: v.written_to_a + v.in_flight,
                ..v
            },
            _ => done,
        },
        RelayEvent::WriteFailed => done,
    }
}

/// The state after the events `es`, one after the other, from `v`.
pub open spec fn relay_run(v: RelayView, es: Seq<RelayEvent>) -> RelayView
    decreases es.len(),
{
    if es.len() == 0 {
        v
    } else {
        relay_run(relay_step(v, es[0]), es.drop_first())
    }
}

/// The action that goes with reaching state `t`.
pub open spec fn relay_action_matches(t: RelayView, a: RelayAction) -> bool {
    match t.phase {
        RelayPhase::Reading => a is ReadEither,
        RelayPhase::Writing(to) => a is Write && a->to == to && a->data@ == t.in_flight,
        RelayPhase::Finished => a is Finish,
    }
}

/// `p` is a prefix of `s`.
pub open spec fn prefix_of(p: Seq<u8>, s: Seq<u8>) -> bool {
    p.len() <= s.len() && s.subrange(0, p.len() as int) == p
}

/// What each direction has written is what it read, in order: all of it
/// while reading, all but the chunk in flight while writing, and a prefix
/// once finished.
pub open spec fn relay_inv(v: RelayView) -> bool {
    match v.phase {
        RelayPhase::Reading => v.written_to_b == v.read_from_a && v.written_to_a == v.read_from_b,
        RelayPhase::Writing(Side::B) => v.read_from_a == v.written_to_b + v.in_flight
            && v.written_to_a == v.read_from_b,
        RelayPhase::Writing(Side::A) => v.read_from_b == v.written_to_a + v.in_flight
            && v.written_to_b == v.read_from_a,
        RelayPhase::Finished => prefix_of(v.written_to_b, v.read_from_a) && prefix_of(
            v.written_to_a,
            v.read_from_b,
        ),
    }
}

/// A relay between two streams.
pub struct Relay {
    phase: RelayPhase,
    state: Ghost<RelayView>,
}

impl View for Relay {
    type V = RelayView;

    closed spec fn view(&self) -> RelayView {
        self.state@
    }
}

impl Relay {
    /// The relay's internal state agrees with its abstract state.
    pub closed spec fn wf(&self) -> bool {
        self.phase == self.state@.phase
    }

    /// A relay that waits for data on either stream.
    pub fn new() -> (r: Relay)
        ensures
            r.wf(),
            r@ == relay_start(),
    {
        Relay { phase: RelayPhase::Reading, state: Ghost(relay_start()) }
    }

    /// The current phase.
    pub fn phase(&self) -> (r: RelayPhase)
        requires
            self.wf(),
        ensures
            r == self@.phase,
    {
        self.phase
    }

    /// Takes what a read on stream `from` gave.
    pub fn on_read(&mut self, from: Side, outcome: ReadOutcome) -> (a: RelayAction)
        requires
            old(self).wf(),
        ensures
            final(self).wf(),
            final(self)@ == relay_step(
                old(self)@,
                match outcome {
                    ReadOutcome::Data(d) => RelayEvent::Data(from, d@),
                    _ => RelayEvent::End(from),
                },
            ),
            relay_action_matches(final(self)@, a),
    {
        let ghost v = self.state@;
        match outcome {
            ReadOutcome::Data(d) => {
                if self.phase == RelayPhase::Reading && d.len() > 0 {
                    let to = other(from);
                    self.phase = RelayPhase::Writing(to);
                    self.state = Ghost(relay_step(v, RelayEvent::Data(from, d@)));
                    RelayAction::Write { to, data: d }
                } else {
                    self.phase = RelayPhase::Finished;
                    self.state = Ghost(relay_step(v, RelayEvent::Data(from, d@)));
                    RelayAction::Finish
                }
            },
            _ => {
                self.phase = RelayPhase::Finished;
                self.state = Ghost(relay_step(v, RelayEvent::End(from)));
                RelayAction::Finish
            },
        }
    }

    /// Takes the outcome of the write that the relay asked for.
    pub fn on_write(&mut self, ok: bool) -> (a: RelayAction)
        requires
            old(self).wf(),
        ensures
            final(self).wf(),
            final(self)@ == relay_step(
                old(self)@,
                if ok {
                    RelayEvent::WriteOk
                } else {
                    RelayEvent::WriteFailed
                },
            ),
            relay_action_matches(final(self)@, a),
    {
        let ghost v = self.state@;
        match self.phase {
            RelayPhase::Writing(_) => {
                if ok {
                    self.phase = RelayPhase::Reading;
                    self.state = Ghost(relay_step(v, RelayEvent::WriteOk));
                    RelayAction::ReadEither
                } else {
                    self.phase = RelayPhase::Finished;
                    self.state = Ghost(relay_step(v, RelayEvent::WriteFailed));
                    RelayAction::Finish
                }
            },
            _ => {
                self.phase = RelayPhase::Finished;
                self.state = Ghost(
                    relay_step(
                        v,
                        if ok {
                            RelayEvent::WriteOk
                        } else {
                            RelayEvent::WriteFailed
                        },
                    ),
                );
                RelayAction::Finish
            },
        }
    }
}

/// Each step keeps the relay's ordering invariant.
pub proof fn lemma_step_keeps_order(v: RelayView, e: RelayEvent)
    requires
        relay_inv(v),
    ensures
        relay_inv(relay_step(v, e)),
{
    let t = relay_step(v, e);
    if t.phase == RelayPhase::Finished {
        assert(v.read_from_a.subrange(0, v.read_from_a.len() as int) =~= v.read_from_a);
        assert(v.read_from_b.subrange(0, v.read_from_b.len() as int) =~= v.read_from_b);
        match v.phase {
            RelayPhase::Writing(Side::B) => {
                assert(v.read_from_a.subrange(0, v.written_to_b.len() as int) =~= v.written_to_b);
            },
            RelayPhase::Writing(Side::A) => {
                assert(v.read_from_b.subrange(0, v.written_to_a.len() as int) =~= v.written_to_a);
            },
            _ => {},
        }
    }
}

/// Bytes cross a relay in order and unchanged, in each direction: after any
/// sequence of events from the start, what was written to B is a prefix of
/// what was read from A (and likewise from B to A), and whenever the relay
/// is back to reading, every byte read from one side has been written to the
/// other.
pub proof fn lemma_relay_keeps_order(es: Seq<RelayEvent>)
    ensures
        relay_inv(relay_run(relay_start(), es)),
        prefix_of(
            relay_run(relay_start(), es).written_to_b,
            relay_run(relay_start(), es).read_from_a,
        ),
        prefix_of(
            relay_run(relay_start(), es).written_to_a,
            relay_run(relay_start(), es).read_from_b,
        ),
        relay_run(relay_start(), es).phase == RelayPhase::Reading ==> relay_run(
            relay_start(),
            es,
        ).written_to_b == relay_run(relay_start(), es).read_from_a && relay_run(
            relay_start(),
            es,
        ).written_to_a == relay_run(relay_start(), es).read_from_b,
{
    lemma_run_keeps_order(relay_start(), es);
    let t = relay_run(relay_start(), es);
    assert(t.read_from_a.subrange(0, t.read_from_a.len() as int) =~= t.read_from_a);
    assert(t.read_from_b.subrange(0, t.read_from_b.len() as int) =~= t.read_from_b);
    assert(t.read_from_a.subrange(0, t.written_to_b.len() as int) =~= t.written_to_b);
    assert(t.read_from_b.subrange(0, t.written_to_a.len() as int) =~= t.written_to_a);
}

proof fn lemma_run_keeps_order(v: RelayView, es: Seq<RelayEvent>)
    requires
        relay_inv(v),
    ensures
        relay_inv(relay_run(v, es)),
    decreases es.len(),
{
    if es.len() > 0 {
        lemma_step_keeps_order(v, es[0]);
        lemma_run_keeps_order(relay_step(v, es[0]), es.drop_first());
    }
}

/// A relay ends in one step when either stream ends or fails, or a write
/// fails, and once ended it stays ended whatever comes after: no direction
/// goes on alone.
pub proof fn lemma_relay_ends_both_directions(v: RelayView, e: RelayEvent, rest: Seq<RelayEvent>)
    requires
        e is End || e is WriteFailed || (e matches RelayEvent::Data(_, d) && d.len() == 0),
    ensures
        relay_step(v, e).phase == RelayPhase::Finished,
        relay_run(relay_step(v, e), rest).phase == RelayPhase::Finished,
    decreases rest.len(),
{
    lemma_finished_stays(relay_step(v, e), rest);
}

proof fn lemma_finished_stays(v: RelayView, es: Seq<RelayEvent>)
    requires
        v.phase == RelayPhase::Finished,
    ensures
        relay_run(v, es).phase == RelayPhase::Finished,
    decreases es.len(),
{
    if es.len() > 0 {
        lemma_finished_stays(relay_step(v, es[0]), es.drop_first());
    }
}

} // verus!
