//! Laws of the driver: what holds of every state and of every run.

use vstd::prelude::*;
use crate::codec::{
    frame_dest, frame_length_field, frame_pan, frame_seq, frame_src, header,
    lemma_header_round_trip, lemma_strip_status_delivers_frame, spec_high_byte, spec_low_byte,
    spec_next_seq, strip_status, with_header, MAX_PACKET_LEN,
};
use crate::bus::frame_write_bytes;
use crate::driver::{Model, BUFFER_SIZE, HEADER_SIZE};
use crate::engine::{fixed_step, lemma_read_write_done_keeps_wf, waits, Access};
use crate::outcome::{OutcomeView, ReturnCode};
use crate::regs::{
    spec_chip_is_busy, spec_has_bits, RF233Register, CMD_OFF, CMD_PLL_ON, CMD_RX_ON, CSMA_SEED,
    FRAME_READ, IEEE_ADDR_0, IEEE_ADDR_1, IEEE_ADDR_2, IEEE_ADDR_3, IEEE_ADDR_4, IEEE_ADDR_5,
    IEEE_ADDR_6, IEEE_ADDR_7, IRQ_0_PLL_LOCK, IRQ_2_RX_START, IRQ_3_TRX_END, IRQ_MASK,
    PHY_CC_CCA, PHY_TX_PWR, STATUS_ON, STATUS_RX_ON, TRX_CTRL_1, TRX_CTRL_2, TRX_RPC,
    XAH_CTRL_0, XAH_CTRL_1,
};
use crate::run::{
    dones, did, encode, exchanges, idle, lemma_exchanges_concat, lemma_exchanges_of_busy_history,
    lemma_run_concat, lemma_run_cons, lemma_run_lengths, lemma_run_one, Event, Record, Wire,
};
use crate::state::InternalState;

verus! {

/// Whether the event is a transmit request.
pub open spec fn is_transmit_call(event: Event) -> bool {
    event is Transmit
}

/// Every event keeps the invariant of the driver.
pub proof fn lemma_apply_keeps_wf(m: Model, event: Event)
    requires
        m.wf(),
    ensures
        m.apply(event).0.wf(),
{
    match event {
        Event::Done(read) => lemma_read_write_done_keeps_wf(m, read),
        _ => {},
    }
}

/// The state moves on completions, and with two kinds of call only: a
/// transmit request that is accepted and has nothing to wait for, which
/// enters the precheck, and a change of short address or PAN id in
/// `Ready` with the bus idle, which starts the write of the low byte and
/// enters the state that waits for it. No other call and no edge on the
/// interrupt line moves it.
pub proof fn lemma_what_moves_the_state(m: Model, event: Event)
    ensures
        m.apply(event).0.state != m.state ==> {
            ||| event is Done
            ||| {
                &&& event is Transmit
                &&& m.accepts_transmit()
                &&& !m.transmit_has_to_wait()
                &&& m.apply(event).0.state == InternalState::TxStatusPrecheck1
            }
            ||| {
                &&& event is SetAddress
                &&& m.state == InternalState::Ready
                &&& !m.spi_busy
                &&& m.apply(event).0.state == InternalState::ConfigShort0Set
                &&& m.apply(event).1.exchange is Some
            }
            ||| {
                &&& event is SetPan
                &&& m.state == InternalState::Ready
                &&& !m.spi_busy
                &&& m.apply(event).0.state == InternalState::ConfigPan0Set
                &&& m.apply(event).1.exchange is Some
            }
        },
{
}

/// Startup is left for good: no event takes a driver that is past startup
/// back into a startup state.
pub proof fn lemma_startup_is_left_for_good(m: Model, event: Event)
    requires
        !m.state.spec_is_startup(),
    ensures
        !m.apply(event).0.state.spec_is_startup(),
{
    match event {
        Event::Done(read) => {
            let arrived = m.store_reply(read);
            if arrived.interrupt_pending {
            } else if arrived.interrupt_handling {
                let cleared = Model { interrupt_handling: false, ..arrived };
                let decoded = cleared.arbitrate(arrived.read_buf[1]);
                assert(!decoded.state.spec_is_startup());
                lemma_step_stays_past_startup(decoded);
            } else {
                lemma_step_stays_past_startup(arrived);
            }
        },
        _ => {},
    }
}

/// The step of a state past startup leads to a state past startup.
proof fn lemma_step_stays_past_startup(m: Model)
    requires
        !m.state.spec_is_startup(),
    ensures
        !m.advance().0.state.spec_is_startup(),
{
    let next = m.advance().0.state;
    match m.state {
        InternalState::TxStatusPrecheck1 => {
            assert(next == InternalState::TxPending || next == InternalState::TxWritingFrame);
        },
        InternalState::TxWritingFrame => {
            assert(next == InternalState::TxStatusPrecheck2);
        },
        InternalState::TxStatusPrecheck2 => {
            assert(next == InternalState::Rx || next == InternalState::TxPllStart);
        },
        InternalState::TxPllStart => {
            assert(next == InternalState::TxPllWait);
        },
        InternalState::TxPllWait => {
            assert(next == InternalState::TxPllWait || next == InternalState::TxAretOn);
        },
        InternalState::TxAretOn => {
            assert(next == InternalState::TxTransmitting);
        },
        InternalState::TxDone => {
            assert(next == InternalState::TxReturnToRx);
        },
        InternalState::TxReturnToRx => {
            assert(next == InternalState::Ready || next == InternalState::TxReturnToRx);
        },
        InternalState::ConfigShort0Set | InternalState::ConfigPan0Set => {
            assert(next == m.after_config());
        },
        InternalState::RxReading => {
            assert(next == InternalState::RxLenRead);
        },
        InternalState::RxLenRead => {
            assert(next == InternalState::RxRead);
        },
        InternalState::RxRead => {
            assert(next == InternalState::Ready || next == InternalState::TxStatusPrecheck1);
        },
        _ => {
            assert(next == m.state);
        },
    }
}

/// Startup is left for good: after any run of events, a driver that was
/// past startup is past startup.
pub proof fn lemma_run_stays_past_startup(m: Model, events: Seq<Event>)
    requires
        !m.state.spec_is_startup(),
    ensures
        !m.run(events).state.spec_is_startup(),
    decreases events.len(),
{
    if events.len() > 0 {
        lemma_startup_is_left_for_good(m, events[0]);
        lemma_run_stays_past_startup(m.apply(events[0]).0, events.drop_first());
    }
}

/// The bus carries one exchange at a time. While one is outstanding, no
/// call and no interrupt starts another or touches the write buffer; only
/// its completion frees the bus. An exchange that starts marks the bus
/// busy, and a completion that starts none leaves it idle.
pub proof fn lemma_bus_carries_one_exchange(m: Model, event: Event)
    ensures
        m.spi_busy && !(event is Done) ==> {
            &&& m.apply(event).1.exchange is None
            &&& m.apply(event).0.spi_busy
            &&& m.apply(event).0.write_buf == m.write_buf
        },
        m.apply(event).1.exchange is Some ==> m.apply(event).0.spi_busy,
        event is Done ==> (m.apply(event).0.spi_busy <==> m.apply(event).1.exchange is Some),
{
}

/// The driver neither loses nor doubles a transmit buffer. Whatever
/// happens, it either keeps the buffer it holds, or hands that very buffer
/// back in a `send_done` and holds none afterwards. It takes a buffer only
/// with a transmit request that it accepts, and hands none back while it
/// holds none.
pub proof fn lemma_transmit_buffer_returned_once(m: Model, event: Event)
    ensures
        ({
            let after = m.apply(event).0;
            let out = m.apply(event).1;
            match out.send_done {
                Some(buf) => m.tx_buf == Some(buf) && after.tx_buf is None,
                None => after.tx_buf == m.tx_buf || (m.tx_buf is None && event is Transmit
                    && out.code == ReturnCode::Success),
            }
        }),
{
}

/// At most one transmit request is in flight, whatever happens in between.
/// From the moment the driver holds a buffer, up to the event that hands
/// it back, the driver holds that very buffer, and every transmit request
/// is refused: it changes nothing and sets nothing off on the bus. A
/// driver that holds a buffer is past startup and stays so, and the
/// refusal is `Busy`.
pub proof fn lemma_held_buffer_blocks_transmit(m: Model, events: Seq<Event>)
    requires
        m.tx_buf is Some,
        forall|i: int|
            0 <= i < events.len() ==> (#[trigger] m.outcomes(events)[i]).send_done is None,
    ensures
        m.outcomes(events).len() == events.len(),
        m.run(events).tx_buf == m.tx_buf,
        m.wf() ==> !m.state.spec_is_startup(),
        forall|i: int|
            0 <= i < events.len() && is_transmit_call(#[trigger] events[i]) ==> {
                &&& m.outcomes(events)[i].code != ReturnCode::Success
                &&& m.outcomes(events)[i].is_quiet()
                &&& m.run(events.take(i + 1)) == m.run(events.take(i))
                &&& !m.state.spec_is_startup() ==> m.outcomes(events)[i] == OutcomeView::quiet(
                    ReturnCode::Busy,
                )
            },
    decreases events.len(),
{
    lemma_run_lengths(m, events);
    if events.len() > 0 && !m.state.spec_is_startup() {
        lemma_startup_is_left_for_good(m, events[0]);
    }
    if events.len() > 0 {
        let r = m.apply(events[0]);
        let rest = events.drop_first();
        lemma_run_lengths(r.0, rest);
        assert(m.outcomes(events)[0] == r.1);
        lemma_transmit_buffer_returned_once(m, events[0]);
        assert forall|i: int| 0 <= i < rest.len() implies (#[trigger] r.0.outcomes(
            rest,
        )[i]).send_done is None by {
            assert(m.outcomes(events)[i + 1] == r.0.outcomes(rest)[i]);
        }
        lemma_held_buffer_blocks_transmit(r.0, rest);
        assert forall|i: int|
            0 <= i < events.len() && is_transmit_call(#[trigger] events[i]) implies {
            &&& m.outcomes(events)[i].code != ReturnCode::Success
            &&& m.outcomes(events)[i].is_quiet()
            &&& m.run(events.take(i + 1)) == m.run(events.take(i))
            &&& !m.state.spec_is_startup() ==> m.outcomes(events)[i] == OutcomeView::quiet(
                ReturnCode::Busy,
            )
        } by {
            if i == 0 {
                assert(events.take(0) =~= Seq::<Event>::empty());
                assert(events.take(1) =~= seq![events[0]]);
                lemma_run_one(m, events[0]);
            } else {
                assert(events[i] == rest[i - 1]);
                assert(is_transmit_call(rest[i - 1]));
                assert(m.outcomes(events)[i] == r.0.outcomes(rest)[i - 1]);
                assert(events.take(i + 1) =~= seq![events[0]] + rest.take(i));
                assert(events.take(i) =~= seq![events[0]] + rest.take(i - 1));
                lemma_run_cons(m, events[0], rest.take(i));
                lemma_run_cons(m, events[0], rest.take(i - 1));
            }
        }
    }
}

/// A transmission that waits in `TxPending` leaves that state with a
/// frame-start interrupt and with nothing else: only the completion of a
/// read of the interrupt status that shows a frame start moves the state,
/// and it leads into the reception.
pub proof fn lemma_pending_transmission_waits_for_frame_start(m: Model, event: Event)
    requires
        m.wf(),
        m.state == InternalState::TxPending,
    ensures
        ({
            let after = m.apply(event).0;
            after.state != InternalState::TxPending ==> {
                &&& event matches Event::Done(read)
                &&& m.interrupt_handling
                &&& !m.interrupt_pending
                &&& spec_has_bits(m.store_reply(read).read_buf[1], IRQ_2_RX_START)
                &&& after.state.is_receive()
            }
        }),
{
}

/// A transmission that has completed hands its buffer back. When the chip
/// confirms that it listens again, the outcome carries the buffer that the
/// driver held, the driver holds none, no transmission is in flight any
/// more, and the driver is `Ready`.
pub proof fn lemma_completed_transmission_returns_buffer(m: Model, reply: Seq<u8>)
    requires
        m.wf(),
        m.steady(),
        m.state == InternalState::TxReturnToRx,
        reply.len() >= 1,
        reply[0] == STATUS_RX_ON,
    ensures
        ({
            let after = m.read_write_done(reply).0;
            let out = m.read_write_done(reply).1;
            &&& out.send_done is Some
            &&& out.send_done == m.tx_buf
            &&& after.tx_buf is None
            &&& !after.transmit_in_flight()
            &&& after.state == InternalState::Ready
        }),
{
}

/// A transmit request fails in two cases only: with `NotStarted` exactly
/// during startup, and with `Busy` exactly where, after startup, a request
/// is in flight. In every other case it succeeds. A request that is
/// refused changes nothing and sets nothing off; one that is accepted is
/// in flight afterwards, with its buffer taken, its header written and the
/// transmission marked as requested.
pub proof fn lemma_transmit_accepted_iff(m: Model, dest: u16, payload: Seq<u8>, len: u8)
    ensures
        ({
            let after = m.transmit(dest, payload, len).0;
            let out = m.transmit(dest, payload, len).1;
            &&& out.code == ReturnCode::Success <==> m.accepts_transmit()
            &&& out.code == ReturnCode::NotStarted <==> m.state.spec_is_startup()
            &&& out.code == ReturnCode::Busy <==> !m.state.spec_is_startup()
                && m.transmit_in_flight()
            &&& out.code == ReturnCode::Success || out.code == ReturnCode::NotStarted
                || out.code == ReturnCode::Busy
            &&& out.code != ReturnCode::Success ==> after == m && out.is_quiet()
            &&& out.code == ReturnCode::Success ==> {
                &&& after.transmit_in_flight()
                &&& after.transmitting
                &&& after.tx_buf == Some(
                    with_header(payload, header(len, m.seq, m.pan, dest, m.addr)),
                )
                &&& after.tx_len == len
            }
        }),
{
}

/// In a run of transmit requests at most one is in flight: once one has
/// been accepted, every later one is refused with `Busy`, changes nothing
/// and sets nothing off on the bus.
pub proof fn lemma_one_transmit_in_flight(m: Model, calls: Seq<Event>, first: int, later: int)
    requires
        forall|i: int| 0 <= i < calls.len() ==> is_transmit_call(#[trigger] calls[i]),
        0 <= first < later < calls.len(),
        m.run(calls.take(first)).apply(calls[first]).1.code == ReturnCode::Success,
    ensures
        ({
            let before = m.run(calls.take(later));
            &&& before.transmit_in_flight()
            &&& before.apply(calls[later]).1 == OutcomeView::quiet(ReturnCode::Busy)
            &&& before.apply(calls[later]).0 == before
        }),
    decreases later - first,
{
    let head = calls.take(later - 1);
    let before = m.run(calls.take(later));
    assert(calls.take(later) =~= head + seq![calls[later - 1]]);
    lemma_run_concat(m, head, seq![calls[later - 1]]);
    lemma_run_one(m.run(head), calls[later - 1]);
    assert(before == m.run(head).apply(calls[later - 1]).0);
    assert(is_transmit_call(calls[later - 1]));
    assert(is_transmit_call(calls[later]));
    if later - 1 > first {
        lemma_one_transmit_in_flight(m, calls, first, later - 1);
    }
}

/// In `Ready`, and in the states that wait for an interrupt, a completion
/// sets nothing off: the reply is stored, the bus is idle, and the driver
/// stays where it is for as long as no interrupt comes.
pub proof fn lemma_waiting_states_hold(m: Model, reply: Seq<u8>)
    requires
        m.steady(),
        waits(m.state),
    ensures
        m.read_write_done(reply) == (
            m.store_reply(reply),
            OutcomeView::quiet(ReturnCode::Success),
        ),
{
}

/// An interrupt that comes while an exchange is outstanding is served
/// before the state machine moves on. The edge only sets the pending flag.
/// The completion of the outstanding exchange then starts the read of the
/// interrupt status and does nothing else: the state and the flags of
/// transmission and reception stay as they were, so the step that this
/// completion would otherwise have set off has not happened. That step
/// happens when the interrupt status has arrived and its cause bits have
/// been applied, from the state that they lead to.
pub proof fn lemma_pending_interrupt_goes_first(m: Model, first: Seq<u8>, second: Seq<u8>)
    requires
        m.wf(),
        m.spi_busy,
        !m.interrupt_pending,
    ensures
        ({
            let fired = m.apply(Event::Fired);
            let served = fired.0.apply(Event::Done(first));
            let stepped = served.0.apply(Event::Done(second));
            let arrived = served.0.store_reply(second);
            &&& fired.0 == Model { interrupt_pending: true, ..m }
            &&& fired.1 == OutcomeView::quiet(ReturnCode::Success)
            &&& served.0.record(served.1) == did(m.state, Access::Read(RF233Register::IrqStatus))
            &&& served.1 == OutcomeView::bus(2)
            &&& served.0 == Model {
                interrupt_handling: true,
                ..m.store_reply(first)
            }.register_read(RF233Register::IrqStatus).0
            &&& served.0.state == m.state
            &&& served.0.transmitting == m.transmitting
            &&& served.0.receiving == m.receiving
            &&& served.0.tx_buf == m.tx_buf
            &&& served.0.interrupt_handling && !served.0.interrupt_pending
            &&& stepped == Model { interrupt_handling: false, ..arrived }.arbitrate(
                arrived.read_buf[1],
            ).advance()
        }),
{
}

/// A frame-start interrupt that comes while the status read of a transmit
/// precheck is outstanding is served first: the completion of the status
/// read starts the read of the interrupt status, and when that has arrived
/// the driver is receiving. No step of the transmission has happened in
/// between: nothing but the read of the interrupt status went over the
/// bus, and the transmit buffer is still held.
pub proof fn lemma_frame_start_beats_precheck(m: Model, first: Seq<u8>, second: Seq<u8>)
    requires
        m.wf(),
        m.state == InternalState::TxStatusPrecheck1,
        m.spi_busy,
        m.steady(),
        second.len() >= 2,
        spec_has_bits(second[1], IRQ_2_RX_START),
        !spec_has_bits(second[1], IRQ_3_TRX_END),
    ensures
        ({
            let events = seq![Event::Fired, Event::Done(first), Event::Done(second)];
            &&& m.history(events) == seq![
                idle(InternalState::TxStatusPrecheck1),
                did(InternalState::TxStatusPrecheck1, Access::Read(RF233Register::IrqStatus)),
                idle(InternalState::Rx),
            ]
            &&& m.run(events).receiving
            &&& m.run(events).tx_buf == m.tx_buf
            &&& m.run(events).steady()
            &&& !m.run(events).spi_busy
        }),
{
    let events = seq![Event::Fired, Event::Done(first), Event::Done(second)];
    let fired = m.apply(Event::Fired);
    let served = fired.0.apply(Event::Done(first));
    let stepped = served.0.apply(Event::Done(second));
    lemma_pending_interrupt_goes_first(m, first, second);
    let tail = seq![Event::Done(first)] + seq![Event::Done(second)];
    assert(events =~= seq![Event::Fired] + tail);
    lemma_run_cons(m, Event::Fired, tail);
    lemma_run_cons(fired.0, Event::Done(first), seq![Event::Done(second)]);
    lemma_run_one(served.0, Event::Done(second));
    assert(m.history(events) =~= seq![
        idle(InternalState::TxStatusPrecheck1),
        did(InternalState::TxStatusPrecheck1, Access::Read(RF233Register::IrqStatus)),
        idle(InternalState::Rx),
    ]);
}

/// The record of an event that was answered by a frame read of `len`
/// bytes.
pub open spec fn did_frame_read(state: InternalState, len: u8) -> Record {
    Record {
        state,
        wire: Some(Wire { command: FRAME_READ, second: 0, len: (len + 1) as usize }),
    }
}

/// Before startup a new short address or PAN id is only kept: nothing
/// happens on the bus and the state does not move.
pub proof fn lemma_config_before_startup(m: Model, value: u16)
    requires
        m.state == InternalState::Start,
    ensures
        m.set_address(value) == (
            Model { addr: value, ..m },
            OutcomeView::quiet(ReturnCode::Success),
        ),
        m.set_pan(value) == (Model { pan: value, ..m }, OutcomeView::quiet(ReturnCode::Success)),
{
}

/// A change of short address or PAN id is refused with `Busy` in every
/// state but the initial one and `Ready`, and in `Ready` while an exchange
/// is outstanding; nothing changes and nothing happens on the bus.
pub proof fn lemma_config_refused(m: Model, value: u16)
    requires
        m.state != InternalState::Start,
        m.state != InternalState::Ready || m.spi_busy,
    ensures
        m.set_address(value) == (m, OutcomeView::quiet(ReturnCode::Busy)),
        m.set_pan(value) == (m, OutcomeView::quiet(ReturnCode::Busy)),
{
}

/// A call that has to write to the chip, or to read from it, while an
/// exchange is outstanding fails with `Busy` and changes nothing, so that
/// the completion of that exchange is taken as what it is: `start` in the
/// initial state, and a change of short address or PAN id in `Ready`.
pub proof fn lemma_busy_bus_refuses_calls(m: Model, event: Event)
    requires
        m.spi_busy,
        match event {
            Event::Start => m.state == InternalState::Start,
            Event::SetAddress(_) => m.state == InternalState::Ready,
            Event::SetPan(_) => m.state == InternalState::Ready,
            _ => false,
        },
    ensures
        m.apply(event) == (m, OutcomeView::quiet(ReturnCode::Busy)),
{
}

/// A change of short address or PAN id is not cut short. While the low
/// byte is on its way, no call moves the state, touches the bus or changes
/// the value, a transmit request among them. The completion of the write
/// sends the high byte, and with it the driver is `Ready`, or in the
/// precheck of a transmission that was asked for in the meantime.
pub proof fn lemma_config_change_completes(m: Model, event: Event, reply: Seq<u8>)
    requires
        m.wf(),
        m.state.spec_is_config(),
        !(event is Done),
    ensures
        m.apply(event).0.state == m.state,
        m.apply(event).0.addr == m.addr,
        m.apply(event).0.pan == m.pan,
        m.apply(event).0.write_buf == m.write_buf,
        m.apply(event).0.spi_busy,
        m.apply(event).1.exchange is None,
        m.steady() ==> m.read_write_done(reply).0.state == m.after_config(),
        m.steady() && m.state == InternalState::ConfigShort0Set ==> m.read_write_done(
            reply,
        ).0.record(m.read_write_done(reply).1) == did(
            m.after_config(),
            Access::Write(RF233Register::ShortAddr1, spec_high_byte(m.addr)),
        ),
        m.steady() && m.state == InternalState::ConfigPan0Set ==> m.read_write_done(
            reply,
        ).0.record(m.read_write_done(reply).1) == did(
            m.after_config(),
            Access::Write(RF233Register::PanId1, spec_high_byte(m.pan)),
        ),
{
}

/// A transmit request that comes while a new short address or PAN id is
/// on its way to the chip is accepted and waits for the change to end. The
/// call succeeds and starts nothing on the bus; state, bus and both
/// transfer buffers are as they were. The driver holds the buffer with its
/// header written, and the transmission is marked as requested. When the
/// write of the low byte completes, the high byte follows, so that the
/// chip gets the whole value, and the driver enters the precheck without
/// being `Ready` in between. When that write completes, the status byte
/// that it brings serves the precheck: with the chip idle the frame goes
/// out. This holds of every payload and every length.
pub proof fn lemma_transmit_during_config_change_waits(
    m: Model,
    dest: u16,
    payload: Seq<u8>,
    len: u8,
    low: Seq<u8>,
    high: Seq<u8>,
)
    requires
        m.wf(),
        m.state.spec_is_config(),
        m.steady(),
        !m.transmit_in_flight(),
    ensures
        ({
            let asked = m.apply(Event::Transmit(dest, payload, len));
            let sent = asked.0.apply(Event::Done(low));
            let checked = sent.0.apply(Event::Done(high));
            let frame = with_header(payload, header(len, m.seq, m.pan, dest, m.addr));
            &&& asked.1 == OutcomeView::quiet(ReturnCode::Success)
            &&& asked.0 == Model { transmitting: true, ..m.prepare_packet(payload, len, dest) }
            &&& asked.0.state == m.state
            &&& asked.0.spi_busy
            &&& asked.0.write_buf == m.write_buf
            &&& asked.0.tx_buf == Some(frame)
            &&& sent.0.record(sent.1) == did(
                InternalState::TxStatusPrecheck1,
                if m.state == InternalState::ConfigShort0Set {
                    Access::Write(RF233Register::ShortAddr1, spec_high_byte(m.addr))
                } else {
                    Access::Write(RF233Register::PanId1, spec_high_byte(m.pan))
                },
            )
            &&& sent.1 == OutcomeView::bus(2)
            &&& sent.0.tx_buf == Some(frame)
            &&& sent.0.addr == m.addr
            &&& sent.0.pan == m.pan
            &&& checked == sent.0.store_reply(high).advance()
            &&& !spec_chip_is_busy(sent.0.store_reply(high).read_buf[0]) ==> {
                &&& checked.0.state == InternalState::TxWritingFrame
                &&& checked.1 == OutcomeView::bus((len + 1) as usize)
                &&& checked.0.write_buf == frame_write_bytes(sent.0.write_buf, frame)
            }
        }),
{
}

/// A transmit request in `Ready` while an exchange is outstanding starts
/// none of its own and loses nothing. The driver takes the buffer and
/// enters the precheck; the outstanding exchange completes, and the status
/// byte that it brings serves the precheck, which takes its step as it
/// would have on its own read.
pub proof fn lemma_transmit_in_ready_with_the_bus_busy(
    m: Model,
    dest: u16,
    payload: Seq<u8>,
    len: u8,
    reply: Seq<u8>,
)
    requires
        m.wf(),
        m.state == InternalState::Ready,
        m.spi_busy,
        m.steady(),
        !m.transmit_in_flight(),
    ensures
        ({
            let asked = m.transmit(dest, payload, len);
            let prepared = Model {
                transmitting: true,
                state: InternalState::TxStatusPrecheck1,
                ..m.prepare_packet(payload, len, dest)
            };
            &&& asked == (prepared, OutcomeView::quiet(ReturnCode::Success))
            &&& asked.0.read_write_done(reply) == prepared.store_reply(reply).advance()
            &&& !spec_chip_is_busy(prepared.store_reply(reply).read_buf[0]) ==> {
                &&& asked.0.read_write_done(reply).0.state == InternalState::TxWritingFrame
                &&& asked.0.read_write_done(reply).1 == OutcomeView::bus((len + 1) as usize)
                &&& asked.0.read_write_done(reply).0.write_buf == frame_write_bytes(
                    m.write_buf,
                    prepared.tx_buf->0,
                )
            }
        }),
{
}

/// The same value reaches the same registers on both ways to the chip. A
/// PAN id or short address that was set before startup is written by the
/// startup sequence as a change in `Ready` writes it: the low byte to the
/// first register of the pair, the high byte to the second.
pub proof fn lemma_config_paths_agree(m: Model, pan: u16, addr: u16, reply: Seq<u8>)
    requires
        m.wf(),
        m.state == InternalState::Ready,
        !m.spi_busy,
    ensures
        ({
            let at_startup = startup_configuration(pan, addr);
            let pan_in_ready = m.history(seq![Event::SetPan(pan), Event::Done(reply)]);
            let addr_in_ready = m.history(seq![Event::SetAddress(addr), Event::Done(reply)]);
            &&& at_startup[7].wire == Some(
                encode(Access::Write(RF233Register::PanId0, spec_low_byte(pan))),
            )
            &&& at_startup[8].wire == Some(
                encode(Access::Write(RF233Register::PanId1, spec_high_byte(pan))),
            )
            &&& at_startup[17].wire == Some(
                encode(Access::Write(RF233Register::ShortAddr0, spec_low_byte(addr))),
            )
            &&& at_startup[18].wire == Some(
                encode(Access::Write(RF233Register::ShortAddr1, spec_high_byte(addr))),
            )
            &&& pan_in_ready[0].wire == at_startup[7].wire
            &&& pan_in_ready[1].wire == at_startup[8].wire
            &&& addr_in_ready[0].wire == at_startup[17].wire
            &&& addr_in_ready[1].wire == at_startup[18].wire
        }),
{
    lemma_set_pan_in_ready(m, pan, reply);
    lemma_set_address_in_ready(m, addr, reply);
}

/// In `Ready` a new short address goes to the chip at once. The call
/// starts exactly one exchange, the write of the low byte, and does
/// nothing else. When that write completes the high byte follows, and with
/// it the driver is `Ready` again.
pub proof fn lemma_set_address_in_ready(m: Model, addr: u16, reply: Seq<u8>)
    requires
        m.wf(),
        m.state == InternalState::Ready,
        !m.spi_busy,
    ensures
        ({
            let events = seq![Event::SetAddress(addr), Event::Done(reply)];
            &&& m.set_address(addr).1 == OutcomeView::bus(2)
            &&& m.history(events) == seq![
                did(
                    InternalState::ConfigShort0Set,
                    Access::Write(RF233Register::ShortAddr0, spec_low_byte(addr)),
                ),
                did(
                    InternalState::Ready,
                    Access::Write(RF233Register::ShortAddr1, spec_high_byte(addr)),
                ),
            ]
            &&& m.run(events).addr == addr
            &&& m.run(events).pan == m.pan
            &&& m.run(events).state == InternalState::Ready
            &&& m.run(events).wf()
            &&& m.run(events).steady()
            &&& m.run(events).spi_busy
            &&& m.run(events).tx_buf == m.tx_buf
            &&& !m.run(events).transmitting
        }),
{
    let events = seq![Event::SetAddress(addr), Event::Done(reply)];
    let called = m.apply(Event::SetAddress(addr));
    assert(events =~= seq![Event::SetAddress(addr)] + seq![Event::Done(reply)]);
    lemma_run_cons(m, Event::SetAddress(addr), seq![Event::Done(reply)]);
    lemma_run_one(called.0, Event::Done(reply));
    assert(m.history(events) =~= seq![
        did(
            InternalState::ConfigShort0Set,
            Access::Write(RF233Register::ShortAddr0, spec_low_byte(addr)),
        ),
        did(InternalState::Ready, Access::Write(RF233Register::ShortAddr1, spec_high_byte(addr))),
    ]);
}

/// In `Ready` a new PAN id goes to the chip at once. The call starts
/// exactly one exchange, the write of the low byte, and does nothing else.
/// When that write completes the high byte follows, and with it the driver
/// is `Ready` again.
pub proof fn lemma_set_pan_in_ready(m: Model, pan: u16, reply: Seq<u8>)
    requires
        m.wf(),
        m.state == InternalState::Ready,
        !m.spi_busy,
    ensures
        ({
            let events = seq![Event::SetPan(pan), Event::Done(reply)];
            &&& m.set_pan(pan).1 == OutcomeView::bus(2)
            &&& m.history(events) == seq![
                did(
                    InternalState::ConfigPan0Set,
                    Access::Write(RF233Register::PanId0, spec_low_byte(pan)),
                ),
                did(
                    InternalState::Ready,
                    Access::Write(RF233Register::PanId1, spec_high_byte(pan)),
                ),
            ]
            &&& m.run(events).pan == pan
            &&& m.run(events).addr == m.addr
            &&& m.run(events).state == InternalState::Ready
            &&& m.run(events).wf()
            &&& m.run(events).steady()
            &&& m.run(events).spi_busy
            &&& m.run(events).tx_buf == m.tx_buf
            &&& !m.run(events).transmitting
        }),
{
    let events = seq![Event::SetPan(pan), Event::Done(reply)];
    let called = m.apply(Event::SetPan(pan));
    assert(events =~= seq![Event::SetPan(pan)] + seq![Event::Done(reply)]);
    lemma_run_cons(m, Event::SetPan(pan), seq![Event::Done(reply)]);
    lemma_run_one(called.0, Event::Done(reply));
    assert(m.history(events) =~= seq![
        did(InternalState::ConfigPan0Set, Access::Write(RF233Register::PanId0, spec_low_byte(pan))),
        did(InternalState::Ready, Access::Write(RF233Register::PanId1, spec_high_byte(pan))),
    ]);
}

/// The frame that an accepted transmit request leaves in the transmit
/// buffer reads back as the request: the length field is the packet length
/// plus one, destination is the one asked for, PAN id and source are the
/// driver's, and the payload is untouched. The frame carries the driver's
/// sequence number, and the next frame will carry the one after it.
pub proof fn lemma_transmit_round_trip(m: Model, dest: u16, payload: Seq<u8>, len: u8)
    requires
        m.accepts_transmit(),
        payload.len() >= HEADER_SIZE,
        len <= MAX_PACKET_LEN,
    ensures
        ({
            let after = m.transmit(dest, payload, len).0;
            &&& after.tx_buf is Some
            &&& after.tx_buf->0.len() == payload.len()
            &&& frame_length_field(after.tx_buf->0) == len + 1
            &&& frame_seq(after.tx_buf->0) == m.seq
            &&& frame_pan(after.tx_buf->0) == m.pan
            &&& frame_dest(after.tx_buf->0) == dest
            &&& frame_src(after.tx_buf->0) == m.addr
            &&& forall|i: int|
                HEADER_SIZE <= i < payload.len() ==> after.tx_buf->0[i] == payload[i]
            &&& after.tx_len == len
            &&& after.seq == spec_next_seq(m.seq)
            &&& after.seq as int == (m.seq + 1) % 256
        }),
{
    lemma_header_round_trip(payload, len, m.seq, m.pan, dest, m.addr);
}

/// A frame that has been read out reaches the receive client without the
/// status byte: where the reply holds the status byte and a frame of `len`
/// bytes, length byte first, the outcome announces `len` bytes, and exactly
/// these stand at the front of the read buffer. The driver then reads the
/// chip's status, on its way to `Ready`, or to the precheck of a
/// transmission that was asked for in the meantime.
pub proof fn lemma_receive_delivers_frame(m: Model, reply: Seq<u8>, len: u8)
    requires
        m.wf(),
        m.state == InternalState::RxRead,
        m.steady(),
        1 <= len < BUFFER_SIZE,
        reply.len() == len + 1,
        reply[1] == len,
    ensures
        ({
            let after = m.read_write_done(reply).0;
            let out = m.read_write_done(reply).1;
            &&& out.receive == Some(len)
            &&& after.read_buf.subrange(0, len as int) == reply.subrange(1, len + 1)
            &&& out.exchange == Some(2usize)
            &&& out.send_done is None
            &&& !after.receiving
            &&& after.state == if m.transmitting {
                InternalState::TxStatusPrecheck1
            } else {
                InternalState::Ready
            }
        }),
{
    let arrived = m.store_reply(reply);
    lemma_strip_status_delivers_frame(arrived.read_buf, len);
    assert(arrived.read_buf.subrange(1, len + 1) =~= reply.subrange(1, len + 1));
}

/// The length that goes to the receive client is the length byte of the
/// frame as the chip sent it, never the status byte in front of it. An
/// empty frame is announced with length zero.
pub proof fn lemma_receive_announces_length_byte(m: Model, reply: Seq<u8>)
    requires
        m.wf(),
        m.state == InternalState::RxRead,
        m.steady(),
    ensures
        m.read_write_done(reply).1.receive == Some(m.store_reply(reply).read_buf[1]),
        reply.len() >= 2 ==> m.read_write_done(reply).1.receive == Some(reply[1]),
        reply.len() < 2 ==> m.read_write_done(reply).1.receive == Some(m.read_buf[1]),
{
}

/// A transmit request that comes while a reception is in progress waits
/// for it, whatever stage the reception is at: the frame may still be
/// arriving, or its length or its bytes may be on their way over the bus.
/// The request succeeds and starts nothing on the bus. State, bus and
/// both transfer buffers are as they were, so the reception goes on
/// undisturbed. The driver holds the buffer with its header written, and
/// the transmission is marked as requested. This holds of every payload
/// and every length.
pub proof fn lemma_transmit_during_reception_waits(
    m: Model,
    dest: u16,
    payload: Seq<u8>,
    len: u8,
)
    requires
        m.wf(),
        m.receive_in_progress(),
        !m.transmit_in_flight(),
    ensures
        ({
            let after = m.transmit(dest, payload, len).0;
            let out = m.transmit(dest, payload, len).1;
            &&& out == OutcomeView::quiet(ReturnCode::Success)
            &&& after == Model { transmitting: true, ..m.prepare_packet(payload, len, dest) }
            &&& after.state == m.state
            &&& after.receiving == m.receiving
            &&& after.spi_busy == m.spi_busy
            &&& after.interrupt_pending == m.interrupt_pending
            &&& after.interrupt_handling == m.interrupt_handling
            &&& after.read_buf == m.read_buf
            &&& after.write_buf == m.write_buf
            &&& after.transmitting
            &&& after.tx_buf == Some(
                with_header(payload, header(len, m.seq, m.pan, dest, m.addr)),
            )
            &&& after.tx_len == len
            &&& after.wf()
        }),
{
}

/// A transmit request that comes while the length of a received frame is
/// on its way over the bus does not disturb the read-out. The length
/// arrives and the driver asks for the frame; the frame arrives and is
/// announced to the receive client; and with that the driver reads the
/// chip's status as the first step of the transmission. It is not `Ready`
/// at any point in between, and it holds the transmit buffer throughout.
pub proof fn lemma_deferred_transmit_during_length_read(
    m: Model,
    dest: u16,
    payload: Seq<u8>,
    len: u8,
    length: Seq<u8>,
    frame: Seq<u8>,
)
    requires
        m.wf(),
        m.state == InternalState::RxLenRead,
        m.steady(),
        !m.transmit_in_flight(),
        length.len() >= 2,
    ensures
        ({
            let asked = m.apply(Event::Transmit(dest, payload, len));
            let sized = asked.0.apply(Event::Done(length));
            let read = sized.0.apply(Event::Done(frame));
            &&& asked.1 == OutcomeView::quiet(ReturnCode::Success)
            &&& asked.0.state == InternalState::RxLenRead
            &&& sized.1 == OutcomeView::bus((length[1] + 1) as usize)
            &&& sized.0.state == InternalState::RxRead
            &&& sized.0.write_buf[0] == FRAME_READ
            &&& read.1.receive == Some(sized.0.store_reply(frame).read_buf[1])
            &&& read.1.send_done is None
            &&& read.0.record(read.1) == did(
                InternalState::TxStatusPrecheck1,
                Access::Read(RF233Register::TrxStatus),
            )
            &&& read.0.read_buf == strip_status(sized.0.store_reply(frame).read_buf)
            &&& read.0.tx_buf == asked.0.tx_buf
            &&& read.0.tx_buf is Some
            &&& read.0.transmitting
        }),
{
    lemma_transmit_during_reception_waits(m, dest, payload, len);
}

/// A transmit request that comes while the bytes of a received frame are
/// on their way over the bus does not disturb the read-out. The frame
/// arrives and is announced to the receive client, and with that the
/// driver reads the chip's status as the first step of the transmission.
/// It is not `Ready` in between, and it holds the transmit buffer
/// throughout.
pub proof fn lemma_deferred_transmit_during_frame_read(
    m: Model,
    dest: u16,
    payload: Seq<u8>,
    len: u8,
    frame: Seq<u8>,
)
    requires
        m.wf(),
        m.state == InternalState::RxRead,
        m.steady(),
        !m.transmit_in_flight(),
    ensures
        ({
            let asked = m.apply(Event::Transmit(dest, payload, len));
            let read = asked.0.apply(Event::Done(frame));
            &&& asked.1 == OutcomeView::quiet(ReturnCode::Success)
            &&& asked.0.state == InternalState::RxRead
            &&& read.1.receive == Some(m.store_reply(frame).read_buf[1])
            &&& read.1.send_done is None
            &&& read.0.record(read.1) == did(
                InternalState::TxStatusPrecheck1,
                Access::Read(RF233Register::TrxStatus),
            )
            &&& read.0.read_buf == strip_status(m.store_reply(frame).read_buf)
            &&& read.0.tx_buf == asked.0.tx_buf
            &&& read.0.tx_buf is Some
            &&& read.0.transmitting
        }),
{
    lemma_transmit_during_reception_waits(m, dest, payload, len);
}

/// A transmit request that comes while a frame is arriving waits for the
/// reception: the call starts nothing on the bus. When the frame has ended
/// the driver reads it out, and with the frame delivered it goes straight
/// to the precheck of the transmission. It is not `Ready` at any point in
/// between.
pub proof fn lemma_deferred_transmit_follows_reception(
    m: Model,
    dest: u16,
    payload: Seq<u8>,
    len: u8,
    irq: Seq<u8>,
    length: Seq<u8>,
    frame: Seq<u8>,
)
    requires
        m.wf(),
        m.receiving,
        !m.transmit_in_flight(),
        !m.spi_busy,
        irq.len() >= 2,
        spec_has_bits(irq[1], IRQ_3_TRX_END),
        !spec_has_bits(irq[1], IRQ_2_RX_START),
        length.len() >= 2,
    ensures
        ({
            let events = seq![
                Event::Transmit(dest, payload, len),
                Event::Fired,
                Event::Done(irq),
                Event::Done(length),
                Event::Done(frame),
            ];
            &&& m.transmit(dest, payload, len).1 == OutcomeView::quiet(ReturnCode::Success)
            &&& m.history(events) == seq![
                idle(InternalState::Rx),
                did(InternalState::Rx, Access::Read(RF233Register::IrqStatus)),
                did_frame_read(InternalState::RxLenRead, 1),
                did_frame_read(InternalState::RxRead, length[1]),
                did(InternalState::TxStatusPrecheck1, Access::Read(RF233Register::TrxStatus)),
            ]
            &&& m.run(events).transmit_in_flight()
            &&& m.run(events).tx_buf == m.transmit(dest, payload, len).0.tx_buf
            &&& m.run(events).transmitting
            &&& m.run(events).state == InternalState::TxStatusPrecheck1
            &&& m.run(events).wf()
            &&& m.run(events).steady()
            &&& m.run(events).spi_busy
            &&& !m.run(events).receiving
            &&& m.outcomes(events).len() == 5
            &&& m.outcomes(events)[4].receive is Some
        }),
{
    let e0 = Event::Transmit(dest, payload, len);
    let e1 = Event::Fired;
    let e2 = Event::Done(irq);
    let e3 = Event::Done(length);
    let e4 = Event::Done(frame);
    let events = seq![e0, e1, e2, e3, e4];
    let m0 = m.apply(e0);
    let m1 = m0.0.apply(e1);
    let m2 = m1.0.apply(e2);
    let m3 = m2.0.apply(e3);
    let m4 = m3.0.apply(e4);
    let t1 = seq![e1] + (seq![e2] + (seq![e3] + seq![e4]));
    let t2 = seq![e2] + (seq![e3] + seq![e4]);
    let t3 = seq![e3] + seq![e4];
    assert(events =~= seq![e0] + t1);
    lemma_run_cons(m, e0, t1);
    lemma_run_cons(m0.0, e1, t2);
    lemma_run_cons(m1.0, e2, t3);
    lemma_run_cons(m2.0, e3, seq![e4]);
    lemma_run_one(m3.0, e4);
    assert(m0.0.record(m0.1) == idle(InternalState::Rx));
    assert(m1.0.record(m1.1) == did(InternalState::Rx, Access::Read(RF233Register::IrqStatus)));
    assert(m2.0.record(m2.1) == did_frame_read(InternalState::RxLenRead, 1));
    assert(m3.0.record(m3.1) == did_frame_read(InternalState::RxRead, length[1]));
    assert(m4.0.record(m4.1) == did(
        InternalState::TxStatusPrecheck1,
        Access::Read(RF233Register::TrxStatus),
    ));
    assert(m.outcomes(events) =~= seq![m0.1, m1.1, m2.1, m3.1, m4.1]);
    assert(m.history(events) =~= seq![
        idle(InternalState::Rx),
        did(InternalState::Rx, Access::Read(RF233Register::IrqStatus)),
        did_frame_read(InternalState::RxLenRead, 1),
        did_frame_read(InternalState::RxRead, length[1]),
        did(InternalState::TxStatusPrecheck1, Access::Read(RF233Register::TrxStatus)),
    ]);
}

/// The records of `n` completions in a row, from `state` on, where each of
/// them meets a state whose step is fixed.
pub open spec fn chain(state: InternalState, pan: u16, addr: u16, n: nat) -> Seq<Record>
    decreases n,
{
    if n == 0 {
        Seq::empty()
    } else {
        match fixed_step(state, pan, addr) {
            Some((access, next)) => seq![did(next, access)] + chain(
                next,
                pan,
                addr,
                (n - 1) as nat,
            ),
            None => Seq::empty(),
        }
    }
}

/// The state after `n` fixed steps from `state` on; `None` where one of
/// the states on the way has no fixed step.
pub open spec fn chain_end(state: InternalState, pan: u16, addr: u16, n: nat) -> Option<
    InternalState,
>
    decreases n,
{
    if n == 0 {
        Some(state)
    } else {
        match fixed_step(state, pan, addr) {
            Some((access, next)) => chain_end(next, pan, addr, (n - 1) as nat),
            None => None,
        }
    }
}

/// With no interrupt pending or being served, the completion that meets a
/// state with a fixed step makes that step and nothing else: the access
/// goes over the bus, the state is entered, and flags, configuration and
/// transmit buffer stay.
pub proof fn lemma_fixed_step(m: Model, reply: Seq<u8>)
    requires
        m.wf(),
        m.steady(),
        fixed_step(m.state, m.pan, m.addr) is Some,
    ensures
        ({
            let step = fixed_step(m.state, m.pan, m.addr)->0;
            let access = step.0;
            let next = step.1;
            let after = m.read_write_done(reply).0;
            let out = m.read_write_done(reply).1;
            &&& after.record(out) == did(next, access)
            &&& after.wf()
            &&& after.steady()
            &&& after.spi_busy
            &&& after.pan == m.pan
            &&& after.addr == m.addr
            &&& after.transmitting == m.transmitting
            &&& after.receiving == m.receiving
            &&& after.tx_buf == m.tx_buf
        }),
{
}

/// A run of completions along a chain of fixed steps goes through exactly
/// the records of the chain.
pub proof fn lemma_chain(m: Model, replies: Seq<Seq<u8>>)
    requires
        m.wf(),
        m.steady(),
        chain_end(m.state, m.pan, m.addr, replies.len()) is Some,
    ensures
        m.history(dones(replies)) == chain(m.state, m.pan, m.addr, replies.len()),
        m.run(dones(replies)).state == chain_end(m.state, m.pan, m.addr, replies.len())->0,
        m.run(dones(replies)).wf(),
        m.run(dones(replies)).steady(),
        m.run(dones(replies)).pan == m.pan,
        m.run(dones(replies)).addr == m.addr,
        m.run(dones(replies)).transmitting == m.transmitting,
        m.run(dones(replies)).receiving == m.receiving,
        m.run(dones(replies)).tx_buf == m.tx_buf,
        replies.len() > 0 ==> m.run(dones(replies)).spi_busy,
    decreases replies.len(),
{
    let events = dones(replies);
    if replies.len() > 0 {
        let rest = replies.drop_first();
        let after = m.read_write_done(replies[0]).0;
        lemma_fixed_step(m, replies[0]);
        assert(events[0] == Event::Done(replies[0]));
        assert(events.drop_first() =~= dones(rest));
        lemma_chain(after, rest);
        assert(m.history(events) =~= chain(m.state, m.pan, m.addr, replies.len()));
    } else {
        assert(m.history(events) =~= chain(m.state, m.pan, m.addr, replies.len()));
    }
}

/// The events of a startup: the call of `start`, the completions of all
/// exchanges up to the one that switches the PLL on, the interrupt that
/// tells of the lock, and the completion of the read of its cause.
pub open spec fn startup_events(replies: Seq<Seq<u8>>) -> Seq<Event> {
    seq![Event::Start] + dones(replies.drop_last()) + seq![
        Event::Fired,
        Event::Done(replies.last()),
    ]
}

/// The configuration that startup writes, from the first control register
/// to the command that switches the PLL on, and the wait that follows it.
pub open spec fn startup_configuration(pan: u16, addr: u16) -> Seq<Record> {
    seq![
        did(InternalState::StartCtrl1Set, Access::Write(RF233Register::TrxCtrl1, TRX_CTRL_1)),
        did(InternalState::StartCcaSet, Access::Write(RF233Register::PhyCcCca, PHY_CC_CCA)),
        did(InternalState::StartPwrSet, Access::Write(RF233Register::PhyTxPwr, PHY_TX_PWR)),
        did(InternalState::StartCtrl2Set, Access::Write(RF233Register::TrxCtrl2, TRX_CTRL_2)),
        did(InternalState::StartIrqmaskSet, Access::Write(RF233Register::IrqMask, IRQ_MASK)),
        did(InternalState::StartXah1Set, Access::Write(RF233Register::XahCtrl1, XAH_CTRL_1)),
        did(InternalState::StartXah0Set, Access::Write(RF233Register::XahCtrl0, XAH_CTRL_0)),
        did(
            InternalState::StartPanid0Set,
            Access::Write(RF233Register::PanId0, spec_low_byte(pan)),
        ),
        did(
            InternalState::StartPanid1Set,
            Access::Write(RF233Register::PanId1, spec_high_byte(pan)),
        ),
        did(InternalState::StartIeee0Set, Access::Write(RF233Register::IeeeAddr0, IEEE_ADDR_0)),
        did(InternalState::StartIeee1Set, Access::Write(RF233Register::IeeeAddr1, IEEE_ADDR_1)),
        did(InternalState::StartIeee2Set, Access::Write(RF233Register::IeeeAddr2, IEEE_ADDR_2)),
        did(InternalState::StartIeee3Set, Access::Write(RF233Register::IeeeAddr3, IEEE_ADDR_3)),
        did(InternalState::StartIeee4Set, Access::Write(RF233Register::IeeeAddr4, IEEE_ADDR_4)),
        did(InternalState::StartIeee5Set, Access::Write(RF233Register::IeeeAddr5, IEEE_ADDR_5)),
        did(InternalState::StartIeee6Set, Access::Write(RF233Register::IeeeAddr6, IEEE_ADDR_6)),
        did(InternalState::StartIeee7Set, Access::Write(RF233Register::IeeeAddr7, IEEE_ADDR_7)),
        did(
            InternalState::StartShort0Set,
            Access::Write(RF233Register::ShortAddr0, spec_low_byte(addr)),
        ),
        did(
            InternalState::StartShort1Set,
            Access::Write(RF233Register::ShortAddr1, spec_high_byte(addr)),
        ),
        did(InternalState::StartCsmaSeeded, Access::Write(RF233Register::CsmaSeed0, CSMA_SEED)),
        did(InternalState::StartRpcSet, Access::Write(RF233Register::TrxRpc, TRX_RPC)),
        did(InternalState::OnStatusRead, Access::Read(RF233Register::TrxStatus)),
        did(InternalState::OnPllWaiting, Access::Write(RF233Register::TrxState, CMD_PLL_ON)),
        idle(InternalState::OnPllWaiting),
    ]
}

/// The records of a startup, event by event. Where the chip reports that
/// it has just been powered, it is switched off first.
pub open spec fn startup_history(turn_off: bool, pan: u16, addr: u16) -> Seq<Record> {
    seq![
        did(InternalState::Start, Access::Read(RF233Register::PartNum)),
        did(InternalState::StartPartRead, Access::Read(RF233Register::IrqStatus)),
        did(InternalState::StartStatusRead, Access::Read(RF233Register::TrxStatus)),
    ] + (if turn_off {
        seq![did(InternalState::StartTurningOff, Access::Write(RF233Register::TrxState, CMD_OFF))]
    } else {
        Seq::empty()
    }) + startup_configuration(pan, addr) + seq![
        did(InternalState::OnPllWaiting, Access::Read(RF233Register::IrqStatus)),
        did(InternalState::Ready, Access::Write(RF233Register::TrxState, CMD_RX_ON)),
    ]
}

/// How many exchanges a startup takes.
pub open spec fn startup_exchanges(turn_off: bool) -> nat {
    if turn_off {
        29
    } else {
        28
    }
}

/// The first events of a startup: the call of `start` and the completions
/// of the three reads that follow it. The status byte of the third reply
/// tells whether the chip has to be switched off first.
proof fn lemma_startup_head(m: Model, r0: Seq<u8>, r1: Seq<u8>, r2: Seq<u8>)
    requires
        m.wf(),
        m.state == InternalState::Start,
        !m.spi_busy,
        r2.len() >= 1,
    ensures
        ({
            let events = seq![Event::Start, Event::Done(r0), Event::Done(r1), Event::Done(r2)];
            let after = m.run(events);
            &&& m.history(events) == seq![
                did(InternalState::Start, Access::Read(RF233Register::PartNum)),
                did(InternalState::StartPartRead, Access::Read(RF233Register::IrqStatus)),
                did(InternalState::StartStatusRead, Access::Read(RF233Register::TrxStatus)),
                if r2[0] == STATUS_ON {
                    did(
                        InternalState::StartTurningOff,
                        Access::Write(RF233Register::TrxState, CMD_OFF),
                    )
                } else {
                    did(
                        InternalState::StartCtrl1Set,
                        Access::Write(RF233Register::TrxCtrl1, TRX_CTRL_1),
                    )
                },
            ]
            &&& after.wf()
            &&& after.steady()
            &&& after.pan == m.pan
            &&& after.addr == m.addr
            &&& after.receiving == m.receiving
            &&& after.transmitting == m.transmitting
            &&& after.tx_buf == m.tx_buf
            &&& after.state == if r2[0] == STATUS_ON {
                InternalState::StartTurningOff
            } else {
                InternalState::StartCtrl1Set
            }
        }),
{
    let e0 = Event::Start;
    let e1 = Event::Done(r0);
    let e2 = Event::Done(r1);
    let e3 = Event::Done(r2);
    let events = seq![e0, e1, e2, e3];
    let m0 = m.apply(e0);
    let m1 = m0.0.apply(e1);
    let m2 = m1.0.apply(e2);
    let m3 = m2.0.apply(e3);
    let t1 = seq![e1] + (seq![e2] + seq![e3]);
    let t2 = seq![e2] + seq![e3];
    assert(events =~= seq![e0] + t1);
    lemma_run_cons(m, e0, t1);
    lemma_run_cons(m0.0, e1, t2);
    lemma_run_cons(m1.0, e2, seq![e3]);
    lemma_run_one(m2.0, e3);
    assert(m0.0.record(m0.1) == did(InternalState::Start, Access::Read(RF233Register::PartNum)));
    assert(m1.0.record(m1.1) == did(
        InternalState::StartPartRead,
        Access::Read(RF233Register::IrqStatus),
    ));
    assert(m2.0.record(m2.1) == did(
        InternalState::StartStatusRead,
        Access::Read(RF233Register::TrxStatus),
    ));
    assert(m.history(events) =~= seq![
        m0.0.record(m0.1),
        m1.0.record(m1.1),
        m2.0.record(m2.1),
        m3.0.record(m3.1),
    ]);
}

/// The last events of a startup: the command that switches the PLL on
/// completes, and the driver waits; the interrupt comes, and its cause is
/// read; the cause tells of the lock, and the driver switches the chip to
/// listening and is `Ready`.
proof fn lemma_startup_tail(m: Model, hold: Seq<u8>, irq: Seq<u8>)
    requires
        m.wf(),
        m.state == InternalState::OnPllWaiting,
        m.steady(),
        irq.len() >= 2,
        spec_has_bits(irq[1], IRQ_0_PLL_LOCK),
        !spec_has_bits(irq[1], IRQ_2_RX_START),
    ensures
        ({
            let events = seq![Event::Done(hold), Event::Fired, Event::Done(irq)];
            let after = m.run(events);
            &&& m.history(events) == seq![
                idle(InternalState::OnPllWaiting),
                did(InternalState::OnPllWaiting, Access::Read(RF233Register::IrqStatus)),
                did(InternalState::Ready, Access::Write(RF233Register::TrxState, CMD_RX_ON)),
            ]
            &&& after.state == InternalState::Ready
            &&& after.wf()
            &&& after.steady()
            &&& after.spi_busy
            &&& after.pan == m.pan
            &&& after.addr == m.addr
            &&& after.transmitting == m.transmitting
            &&& after.tx_buf == m.tx_buf
        }),
{
    let e0 = Event::Done(hold);
    let e1 = Event::Fired;
    let e2 = Event::Done(irq);
    let events = seq![e0, e1, e2];
    let m0 = m.apply(e0);
    let m1 = m0.0.apply(e1);
    let m2 = m1.0.apply(e2);
    assert(events =~= seq![e0] + (seq![e1] + seq![e2]));
    lemma_run_cons(m, e0, seq![e1] + seq![e2]);
    lemma_run_cons(m0.0, e1, seq![e2]);
    lemma_run_one(m1.0, e2);
    assert(m0.0.record(m0.1) == idle(InternalState::OnPllWaiting));
    assert(m1.0.record(m1.1) == did(
        InternalState::OnPllWaiting,
        Access::Read(RF233Register::IrqStatus),
    ));
    assert(m2.0.record(m2.1) == did(
        InternalState::Ready,
        Access::Write(RF233Register::TrxState, CMD_RX_ON),
    ));
    assert(m.history(events) =~= seq![
        m0.0.record(m0.1),
        m1.0.record(m1.1),
        m2.0.record(m2.1),
    ]);
}

/// The chain of fixed steps from the first control register on is the
/// configuration that startup writes.
proof fn lemma_configuration_chain(pan: u16, addr: u16)
    ensures
        chain(InternalState::StartCtrl1Set, pan, addr, 22) == startup_configuration(
            pan,
            addr,
        ).subrange(1, 23),
        chain_end(InternalState::StartCtrl1Set, pan, addr, 22) == Some(
            InternalState::OnPllWaiting,
        ),
        chain(InternalState::StartTurningOff, pan, addr, 23) == startup_configuration(
            pan,
            addr,
        ).subrange(0, 23),
        chain_end(InternalState::StartTurningOff, pan, addr, 23) == Some(
            InternalState::OnPllWaiting,
        ),
{
    reveal_with_fuel(chain, 24);
    reveal_with_fuel(chain_end, 24);
    assert(chain(InternalState::StartCtrl1Set, pan, addr, 22) =~= startup_configuration(
        pan,
        addr,
    ).subrange(1, 23));
    assert(chain(InternalState::StartTurningOff, pan, addr, 23) =~= startup_configuration(
        pan,
        addr,
    ).subrange(0, 23));
}

/// A startup takes a fixed number of exchanges and reaches `Ready` with the
/// last of them. Its history has one event that starts no exchange, the
/// wait for the PLL, and every state before the last is a startup state.
proof fn lemma_startup_history_shape(turn_off: bool, pan: u16, addr: u16)
    ensures
        ({
            let h = startup_history(turn_off, pan, addr);
            &&& h.len() == startup_exchanges(turn_off) + 1
            &&& exchanges(h).len() == startup_exchanges(turn_off)
            &&& h.last().state == InternalState::Ready
            &&& forall|k: int| 0 <= k < h.len() - 1 ==> (#[trigger] h[k]).state.spec_is_startup()
        }),
{
    let h = startup_history(turn_off, pan, addr);
    let config = startup_configuration(pan, addr);
    let before = h.subrange(0, h.len() - 3);
    let wait = seq![idle(InternalState::OnPllWaiting)];
    let after = h.subrange(h.len() - 2, h.len() as int);
    assert(config.len() == 24);
    assert(h =~= before + wait + after);
    assert forall|i: int| 0 <= i < before.len() implies (#[trigger] before[i]).wire is Some by {
        if i >= before.len() - 23 {
            assert(before[i] == config[i - (before.len() - 23)]);
        }
    }
    lemma_exchanges_of_busy_history(before);
    lemma_exchanges_of_busy_history(after);
    lemma_exchanges_concat(before + wait, after);
    lemma_exchanges_concat(before, wait);
    assert(wait.drop_last() =~= Seq::<Record>::empty());
    assert(exchanges(wait) =~= Seq::<Wire>::empty()) by {
        reveal_with_fuel(exchanges, 2);
    }
    assert forall|k: int| 0 <= k < h.len() - 1 implies (#[trigger] h[k]).state.spec_is_startup(
    ) by {
        if k >= h.len() - 26 && k < h.len() - 2 {
            assert(h[k] == config[k - (h.len() - 26)]);
        }
    }
}

/// Startup. From the initial state, with every exchange answered and the
/// lock of the PLL announced by an interrupt, the driver goes through
/// exactly the exchanges of `startup_history`, in that order: 29 of them
/// where the chip reports that it has just been powered, 28 otherwise. It
/// is `Ready` with the last of them and in a startup state until then, so
/// that no transmit request is accepted on the way.
///
/// At the end the last write is outstanding, no interrupt is pending or
/// being served, no frame is arriving, no transmit request is in flight,
/// and address and PAN id are as they were set. So a transmit request is
/// accepted from then on, and the completion of the last write sets
/// nothing off and leaves the driver `Ready` with the bus idle.
pub proof fn lemma_startup_reaches_ready(m: Model, replies: Seq<Seq<u8>>)
    requires
        m.wf(),
        m.state == InternalState::Start,
        !m.spi_busy,
        replies.len() >= 3,
        replies[2].len() >= 1,
        replies.len() + 1 == startup_exchanges(replies[2][0] == STATUS_ON),
        replies.last().len() >= 2,
        spec_has_bits(replies.last()[1], IRQ_0_PLL_LOCK),
        !spec_has_bits(replies.last()[1], IRQ_2_RX_START),
    ensures
        ({
            let turn_off = replies[2][0] == STATUS_ON;
            let events = startup_events(replies);
            let h = m.history(events);
            &&& h == startup_history(turn_off, m.pan, m.addr)
            &&& h.len() == events.len()
            &&& exchanges(h).len() == startup_exchanges(turn_off)
            &&& forall|k: int| 0 <= k < h.len() - 1 ==> (#[trigger] h[k]).state.spec_is_startup()
            &&& h.last().state == InternalState::Ready
            &&& m.run(events).state == InternalState::Ready
            &&& m.run(events).wf()
            &&& m.run(events).steady()
            &&& m.run(events).spi_busy
            &&& !m.run(events).receiving
            &&& !m.run(events).transmitting
            &&& m.run(events).tx_buf is None
            &&& m.run(events).pan == m.pan
            &&& m.run(events).addr == m.addr
            &&& m.run(events).accepts_transmit()
            &&& forall|reply: Seq<u8>| #[trigger]
                m.run(events).read_write_done(reply) == (
                    m.run(events).store_reply(reply),
                    OutcomeView::quiet(ReturnCode::Success),
                )
            &&& forall|reply: Seq<u8>|
                {
                    let idle = (#[trigger] m.run(events).store_reply(reply));
                    &&& idle.wf()
                    &&& idle.state == InternalState::Ready
                    &&& !idle.spi_busy
                    &&& idle.accepts_transmit()
                }
        }),
{
    lemma_startup_run(m, replies);
    let end = m.run(startup_events(replies));
    assert forall|reply: Seq<u8>| #[trigger]
        end.read_write_done(reply) == (
            end.store_reply(reply),
            OutcomeView::quiet(ReturnCode::Success),
        ) by {
        lemma_waiting_states_hold(end, reply);
    }
}

/// The run of a startup, its history and where it ends.
proof fn lemma_startup_run(m: Model, replies: Seq<Seq<u8>>)
    requires
        m.wf(),
        m.state == InternalState::Start,
        !m.spi_busy,
        replies.len() >= 3,
        replies[2].len() >= 1,
        replies.len() + 1 == startup_exchanges(replies[2][0] == STATUS_ON),
        replies.last().len() >= 2,
        spec_has_bits(replies.last()[1], IRQ_0_PLL_LOCK),
        !spec_has_bits(replies.last()[1], IRQ_2_RX_START),
    ensures
        ({
            let turn_off = replies[2][0] == STATUS_ON;
            let events = startup_events(replies);
            let h = m.history(events);
            &&& h == startup_history(turn_off, m.pan, m.addr)
            &&& h.len() == events.len()
            &&& exchanges(h).len() == startup_exchanges(turn_off)
            &&& forall|k: int| 0 <= k < h.len() - 1 ==> (#[trigger] h[k]).state.spec_is_startup()
            &&& h.last().state == InternalState::Ready
            &&& m.run(events).state == InternalState::Ready
            &&& m.run(events).wf()
            &&& m.run(events).steady()
            &&& m.run(events).spi_busy
            &&& !m.run(events).receiving
            &&& !m.run(events).transmitting
            &&& m.run(events).tx_buf is None
            &&& m.run(events).pan == m.pan
            &&& m.run(events).addr == m.addr
            &&& m.run(events).accepts_transmit()
        }),
{
    let turn_off = replies[2][0] == STATUS_ON;
    let events = startup_events(replies);
    let pre = replies.drop_last();
    let head = seq![
        Event::Start,
        Event::Done(replies[0]),
        Event::Done(replies[1]),
        Event::Done(replies[2]),
    ];
    let mid = pre.subrange(3, pre.len() - 1);
    let tail = seq![Event::Done(pre.last()), Event::Fired, Event::Done(replies.last())];
    assert(events =~= head + dones(mid) + tail);
    lemma_startup_head(m, replies[0], replies[1], replies[2]);
    let m_head = m.run(head);
    lemma_configuration_chain(m.pan, m.addr);
    lemma_chain(m_head, mid);
    let m_mid = m_head.run(dones(mid));
    lemma_startup_tail(m_mid, pre.last(), replies.last());
    lemma_run_concat(m, head, dones(mid));
    lemma_run_concat(m, head + dones(mid), tail);
    assert(m.history(events) =~= startup_history(turn_off, m.pan, m.addr));
    lemma_startup_history_shape(turn_off, m.pan, m.addr);
    lemma_run_concat(m, events, Seq::empty());
}

} // verus!
