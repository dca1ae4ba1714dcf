//! Runs of the driver: what a sequence of events leads to, state by state
//! and exchange by exchange. The laws of the driver are stated over runs.

use vstd::prelude::*;
use crate::driver::Model;
use crate::engine::Access;
use crate::outcome::OutcomeView;
use crate::regs::{spec_read_command, spec_write_command};
use crate::state::InternalState;

verus! {

/// Everything that can happen to the driver: a call of the radio stack, an
/// edge on the interrupt line, or the completion of a bus exchange.
pub ghost enum Event {
    Initialize,
    Reset,
    Start,
    SetAddress(u16),
    SetPan(u16),
    Transmit(u16, Seq<u8>, u8),
    Fired,
    /// The outstanding exchange has completed with these bytes.
    Done(Seq<u8>),
}

/// A bus exchange as the chip sees its start: the command byte, the byte
/// behind it, and the number of bytes.
pub ghost struct Wire {
    pub command: u8,
    pub second: u8,
    pub len: usize,
}

/// What one event led to: the state afterwards, and the exchange that was
/// started, if any.
pub ghost struct Record {
    pub state: InternalState,
    pub wire: Option<Wire>,
}

/// A register access on the bus.
pub open spec fn encode(access: Access) -> Wire {
    match access {
        Access::Read(reg) => Wire { command: spec_read_command(reg), second: 0, len: 2 },
        Access::Write(reg, val) => Wire { command: spec_write_command(reg), second: val, len: 2 },
    }
}

/// The record of an event that was answered by a register access.
pub open spec fn did(state: InternalState, access: Access) -> Record {
    Record { state, wire: Some(encode(access)) }
}

/// The record of an event that set nothing off on the bus.
pub open spec fn idle(state: InternalState) -> Record {
    Record { state, wire: None }
}

impl Model {
    pub open spec fn apply(self, event: Event) -> (Model, OutcomeView) {
        match event {
            Event::Initialize => self.initialize(),
            Event::Reset => self.reset(),
            Event::Start => self.start(),
            Event::SetAddress(addr) => self.set_address(addr),
            Event::SetPan(pan) => self.set_pan(pan),
            Event::Transmit(dest, payload, len) => self.transmit(dest, payload, len),
            Event::Fired => self.handle_interrupt(),
            Event::Done(read) => self.read_write_done(read),
        }
    }

    /// The record of an event that led to `self` with the outcome `out`.
    pub open spec fn record(self, out: OutcomeView) -> Record {
        Record {
            state: self.state,
            wire: match out.exchange {
                Some(len) => Some(
                    Wire { command: self.write_buf[0], second: self.write_buf[1], len },
                ),
                None => None,
            },
        }
    }

    /// The driver after the events, first to last.
    pub open spec fn run(self, events: Seq<Event>) -> Model
        decreases events.len(),
    {
        if events.len() == 0 {
            self
        } else {
            self.apply(events[0]).0.run(events.drop_first())
        }
    }

    /// The outcome of each of the events, first to last.
    pub open spec fn outcomes(self, events: Seq<Event>) -> Seq<OutcomeView>
        decreases events.len(),
    {
        if events.len() == 0 {
            Seq::empty()
        } else {
            let r = self.apply(events[0]);
            seq![r.1] + r.0.outcomes(events.drop_first())
        }
    }

    /// One record for each of the events, first to last.
    pub open spec fn history(self, events: Seq<Event>) -> Seq<Record>
        decreases events.len(),
    {
        if events.len() == 0 {
            Seq::empty()
        } else {
            let r = self.apply(events[0]);
            seq![r.0.record(r.1)] + r.0.history(events.drop_first())
        }
    }
}

/// The completions of a series of exchanges, one for each reply.
pub open spec fn dones(replies: Seq<Seq<u8>>) -> Seq<Event> {
    Seq::new(replies.len(), |i: int| Event::Done(replies[i]))
}

/// The exchanges of a history, in order.
pub open spec fn exchanges(history: Seq<Record>) -> Seq<Wire>
    decreases history.len(),
{
    if history.len() == 0 {
        Seq::empty()
    } else {
        let rest = exchanges(history.drop_last());
        match history.last().wire {
            Some(wire) => rest.push(wire),
            None => rest,
        }
    }
}

/// A run of one event.
pub proof fn lemma_run_one(m: Model, event: Event)
    ensures
        m.run(seq![event]) == m.apply(event).0,
        m.history(seq![event]) == seq![m.apply(event).0.record(m.apply(event).1)],
        m.outcomes(seq![event]) == seq![m.apply(event).1],
{
    let events = seq![event];
    let r = m.apply(event);
    assert(events.drop_first() =~= Seq::<Event>::empty());
    assert(r.0.run(events.drop_first()) == r.0);
    assert(r.0.history(events.drop_first()) =~= Seq::<Record>::empty());
    assert(r.0.outcomes(events.drop_first()) =~= Seq::<OutcomeView>::empty());
    assert(m.history(events) =~= seq![r.0.record(r.1)]);
    assert(m.outcomes(events) =~= seq![r.1]);
}

/// A run has one outcome and one record for each event.
pub proof fn lemma_run_lengths(m: Model, events: Seq<Event>)
    ensures
        m.outcomes(events).len() == events.len(),
        m.history(events).len() == events.len(),
    decreases events.len(),
{
    if events.len() > 0 {
        lemma_run_lengths(m.apply(events[0]).0, events.drop_first());
    }
}

/// A run of `event` followed by `rest`.
pub proof fn lemma_run_cons(m: Model, event: Event, rest: Seq<Event>)
    ensures
        m.run(seq![event] + rest) == m.apply(event).0.run(rest),
        m.history(seq![event] + rest) == seq![m.apply(event).0.record(m.apply(event).1)]
            + m.apply(event).0.history(rest),
        m.outcomes(seq![event] + rest) == seq![m.apply(event).1] + m.apply(event).0.outcomes(
            rest,
        ),
{
    let events = seq![event] + rest;
    assert(events[0] == event);
    assert(events.drop_first() =~= rest);
}

/// A run of `first` followed by `second` is a run of `first` and, from
/// where that leads, a run of `second`.
pub proof fn lemma_run_concat(m: Model, first: Seq<Event>, second: Seq<Event>)
    ensures
        m.run(first + second) == m.run(first).run(second),
        m.history(first + second) == m.history(first) + m.run(first).history(second),
        m.history(first).len() == first.len(),
    decreases first.len(),
{
    if first.len() == 0 {
        assert(first + second =~= second);
        assert(m.history(first) + m.run(first).history(second) =~= m.history(second));
    } else {
        let all = first + second;
        let r = m.apply(first[0]);
        assert(all[0] == first[0]);
        assert(all.drop_first() =~= first.drop_first() + second);
        lemma_run_concat(r.0, first.drop_first(), second);
        assert(m.history(all) =~= m.history(first) + m.run(first).history(second));
    }
}

/// The exchanges of two histories in a row are those of the first followed
/// by those of the second.
pub proof fn lemma_exchanges_concat(first: Seq<Record>, second: Seq<Record>)
    ensures
        exchanges(first + second) == exchanges(first) + exchanges(second),
    decreases second.len(),
{
    if second.len() == 0 {
        assert(first + second =~= first);
        assert(exchanges(first) + exchanges(second) =~= exchanges(first));
    } else {
        let all = first + second;
        assert(all.drop_last() =~= first + second.drop_last());
        assert(all.last() == second.last());
        lemma_exchanges_concat(first, second.drop_last());
        assert(exchanges(all) =~= exchanges(first) + exchanges(second));
    }
}

/// A history in which every event started an exchange has as many
/// exchanges as events.
pub proof fn lemma_exchanges_of_busy_history(history: Seq<Record>)
    requires
        forall|i: int| 0 <= i < history.len() ==> (#[trigger] history[i]).wire is Some,
    ensures
        exchanges(history).len() == history.len(),
    decreases history.len(),
{
    if history.len() > 0 {
        lemma_exchanges_of_busy_history(history.drop_last());
    }
}

} // verus!
