//! Public service: what a radio stack calls.

use vstd::prelude::*;
use crate::codec::{
    header, low_byte, next_seq, spec_low_byte, spec_next_seq, with_header, write_header,
    MAX_PACKET_LEN,
};
use crate::driver::{Model, RF233, HEADER_SIZE};
use crate::engine::Access;
use crate::outcome::{
    BusConfig, ClockPhase, ClockPolarity, Outcome, OutcomeView, Pin, PinAction, ReturnCode,
};
use crate::regs::RF233Register;
use crate::state::InternalState;

verus! {

/// Clock rate of the bus, in hertz.
pub const BUS_RATE: u32 = 100000;

/// How many times in a row `reset` sets the reset line low.
pub const RESET_HOLD: u32 = 10000;

/// The clock settings that the chip needs.
pub open spec fn bus_settings() -> BusConfig {
    BusConfig {
        polarity: ClockPolarity::IdleLow,
        phase: ClockPhase::SampleLeading,
        rate: BUS_RATE,
    }
}

/// The pin operations that take the chip out of reset and out of sleep:
/// the reset line first, the sleep line after it.
pub open spec fn reset_pin_sequence() -> Seq<PinAction> {
    seq![
        PinAction::MakeOutput(Pin::Reset),
        PinAction::MakeOutput(Pin::Sleep),
        PinAction::HoldLow(Pin::Reset, RESET_HOLD),
        PinAction::SetHigh(Pin::Reset),
        PinAction::SetLow(Pin::Sleep),
    ]
}

impl Model {
    pub open spec fn reset(self) -> (Model, OutcomeView) {
        (
            Model { transmitting: false, radio_on: true, ..self },
            OutcomeView { pins: reset_pin_sequence(), ..OutcomeView::quiet(ReturnCode::Success) },
        )
    }

    pub open spec fn initialize(self) -> (Model, OutcomeView) {
        let r = self.reset();
        (r.0, OutcomeView { bus_config: Some(bus_settings()), ..r.1 })
    }

    pub open spec fn start(self) -> (Model, OutcomeView) {
        if self.state != InternalState::Start {
            (self, OutcomeView::quiet(ReturnCode::Fail))
        } else {
            self.register_read(RF233Register::PartNum)
        }
    }

    /// Whether address and PAN id can change: before startup, where they
    /// are only kept, and in `Ready` with the bus idle, where they go to
    /// the chip at once.
    pub open spec fn accepts_config(self) -> bool {
        self.state == InternalState::Start || (self.state == InternalState::Ready
            && !self.spi_busy)
    }

    pub open spec fn set_address(self, addr: u16) -> (Model, OutcomeView) {
        if !self.accepts_config() {
            (self, OutcomeView::quiet(ReturnCode::Busy))
        } else if self.state == InternalState::Ready {
            Model { addr, ..self }.go(
                Access::Write(RF233Register::ShortAddr0, spec_low_byte(addr)),
                InternalState::ConfigShort0Set,
            )
        } else {
            (Model { addr, ..self }, OutcomeView::quiet(ReturnCode::Success))
        }
    }

    pub open spec fn set_pan(self, pan: u16) -> (Model, OutcomeView) {
        if !self.accepts_config() {
            (self, OutcomeView::quiet(ReturnCode::Busy))
        } else if self.state == InternalState::Ready {
            Model { pan, ..self }.go(
                Access::Write(RF233Register::PanId0, spec_low_byte(pan)),
                InternalState::ConfigPan0Set,
            )
        } else {
            (Model { pan, ..self }, OutcomeView::quiet(ReturnCode::Success))
        }
    }

    /// Whether a transmit request is in flight: the driver holds its
    /// buffer, or the transmission has been marked as under way.
    pub open spec fn transmit_in_flight(self) -> bool {
        self.tx_buf is Some || self.transmitting
    }

    /// Whether a frame is arriving or being read out of the chip.
    pub open spec fn receive_in_progress(self) -> bool {
        self.receiving || self.state.is_receive()
    }

    /// Whether a transmit request has to wait before it can begin: a frame
    /// is arriving or being read out, or a new short address or PAN id is
    /// on its way to the chip.
    pub open spec fn transmit_has_to_wait(self) -> bool {
        self.receive_in_progress() || self.state.spec_is_config()
    }

    /// Whether a transmit request would be accepted: startup has
    /// completed and no request is in flight.
    pub open spec fn accepts_transmit(self) -> bool {
        !self.state.spec_is_startup() && !self.transmit_in_flight()
    }

    /// Take `buf` as the transmit buffer, with the header of a packet of
    /// `len` bytes for `dest` written over its first ten bytes. The
    /// sequence number moves on by one.
    pub open spec fn prepare_packet(self, buf: Seq<u8>, len: u8, dest: u16) -> Model {
        Model {
            tx_buf: Some(with_header(buf, header(len, self.seq, self.pan, dest, self.addr))),
            tx_len: len,
            seq: spec_next_seq(self.seq),
            ..self
        }
    }

    pub open spec fn transmit(self, dest: u16, payload: Seq<u8>, len: u8) -> (Model, OutcomeView) {
        if self.state.spec_is_startup() {
            (self, OutcomeView::quiet(ReturnCode::NotStarted))
        } else if self.transmit_in_flight() {
            (self, OutcomeView::quiet(ReturnCode::Busy))
        } else if self.transmit_has_to_wait() {
            (
                Model { transmitting: true, ..self.prepare_packet(payload, len, dest) },
                OutcomeView::quiet(ReturnCode::Success),
            )
        } else {
            Model { transmitting: true, ..self.prepare_packet(payload, len, dest) }.go(
                Access::Read(RF233Register::TrxStatus),
                InternalState::TxStatusPrecheck1,
            )
        }
    }
}

impl RF233 {
    /// Takes the chip out of reset and out of sleep, and marks the radio
    /// as on. The outcome holds the pin operations; the state machine does
    /// not move.
    pub fn reset(&mut self) -> (out: Outcome)
        ensures
            old(self).wf() ==> final(self).wf(),
            final(self)@ == old(self)@.reset().0,
            out@ == old(self)@.reset().1,
    {
        let mut pins: Vec<PinAction> = Vec::new();
        pins.push(PinAction::MakeOutput(Pin::Reset));
        pins.push(PinAction::MakeOutput(Pin::Sleep));
        pins.push(PinAction::HoldLow(Pin::Reset, RESET_HOLD));
        pins.push(PinAction::SetHigh(Pin::Reset));
        pins.push(PinAction::SetLow(Pin::Sleep));
        assert(pins@ =~= reset_pin_sequence());
        self.transmitting = false;
        self.radio_on = true;
        Outcome {
            code: ReturnCode::Success,
            bus_config: None,
            pins,
            exchange: None,
            send_done: None,
            receive: None,
        }
    }

    /// Sets the bus clock and resets the chip: the outcome of `reset`,
    /// with the clock settings to apply first.
    pub fn initialize(&mut self) -> (out: Outcome)
        ensures
            old(self).wf() ==> final(self).wf(),
            final(self)@ == old(self)@.initialize().0,
            out@ == old(self)@.initialize().1,
    {
        let mut out = self.reset();
        out.bus_config = Some(
            BusConfig {
                polarity: ClockPolarity::IdleLow,
                phase: ClockPhase::SampleLeading,
                rate: BUS_RATE,
            },
        );
        out
    }

    /// Starts the startup sequence with a read of the part number.
    ///
    /// Fails, and changes nothing, once the state machine has left its
    /// initial state. Fails with `Busy`, and changes nothing, while an
    /// exchange is outstanding.
    pub fn start(&mut self) -> (out: Outcome)
        ensures
            old(self).wf() ==> final(self).wf(),
            final(self)@ == old(self)@.start().0,
            out@ == old(self)@.start().1,
    {
        if self.state != InternalState::Start {
            return Outcome::quiet(ReturnCode::Fail);
        }
        self.register_read(RF233Register::PartNum)
    }

    /// The driver cannot switch the chip off.
    pub fn stop(&self) -> (code: ReturnCode)
        ensures
            code == ReturnCode::Unsupported,
    {
        ReturnCode::Unsupported
    }

    /// Sets the short address.
    ///
    /// Before startup the address is kept for the startup sequence and
    /// nothing happens on the bus. In `Ready`, with the bus idle, the
    /// address is kept and its low byte is written to the chip; the high
    /// byte follows when that write completes, and the driver is `Ready`
    /// again. In any other state, and in `Ready` while an exchange is
    /// outstanding, the call fails with `Busy` and changes nothing.
    pub fn set_address(&mut self, addr: u16) -> (out: Outcome)
        ensures
            old(self).wf() ==> final(self).wf(),
            final(self)@ == old(self)@.set_address(addr).0,
            out@ == old(self)@.set_address(addr).1,
    {
        let state = self.state;
        if state == InternalState::Start {
            self.addr = addr;
            Outcome::quiet(ReturnCode::Success)
        } else if state == InternalState::Ready && !self.spi_busy {
            self.addr = addr;
            Outcome::step(
                self.state_transition_write(
                    RF233Register::ShortAddr0,
                    low_byte(addr),
                    InternalState::ConfigShort0Set,
                ),
            )
        } else {
            Outcome::quiet(ReturnCode::Busy)
        }
    }

    /// Sets the PAN id.
    ///
    /// Before startup the id is kept for the startup sequence and nothing
    /// happens on the bus. In `Ready`, with the bus idle, the id is kept
    /// and its low byte is written to the chip; the high byte follows when
    /// that write completes, and the driver is `Ready` again. In any other
    /// state, and in `Ready` while an exchange is outstanding, the call
    /// fails with `Busy` and changes nothing.
    pub fn set_pan(&mut self, pan: u16) -> (out: Outcome)
        ensures
            old(self).wf() ==> final(self).wf(),
            final(self)@ == old(self)@.set_pan(pan).0,
            out@ == old(self)@.set_pan(pan).1,
    {
        let state = self.state;
        if state == InternalState::Start {
            self.pan = pan;
            Outcome::quiet(ReturnCode::Success)
        } else if state == InternalState::Ready && !self.spi_busy {
            self.pan = pan;
            Outcome::step(
                self.state_transition_write(
                    RF233Register::PanId0,
                    low_byte(pan),
                    InternalState::ConfigPan0Set,
                ),
            )
        } else {
            Outcome::quiet(ReturnCode::Busy)
        }
    }

    /// Where the payload starts in a transmit buffer.
    pub fn payload_offset(&self) -> (offset: u8)
        ensures
            offset == HEADER_SIZE,
    {
        HEADER_SIZE
    }

    /// Length of the header at the front of a transmit buffer.
    pub fn header_size(&self) -> (size: u8)
        ensures
            size == HEADER_SIZE,
    {
        HEADER_SIZE
    }

    /// Whether a transmit request would be accepted now.
    pub fn accepts_transmit(&self) -> (accepts: bool)
        ensures
            accepts == self@.accepts_transmit(),
    {
        !self.state.is_startup() && !(self.tx_buf.is_some() || self.transmitting)
    }

    /// Writes the header of a packet of `len` bytes for `dest` over the
    /// first ten bytes of `buf`, and keeps `buf` as the transmit buffer.
    pub(crate) fn prepare_packet(&mut self, buf: Vec<u8>, len: u8, dest: u16)
        requires
            buf@.len() >= HEADER_SIZE,
            len <= MAX_PACKET_LEN,
        ensures
            final(self)@ == old(self)@.prepare_packet(buf@, len, dest),
    {
        let mut buf = buf;
        write_header(&mut buf, len, self.seq, self.pan, dest, self.addr);
        self.seq = next_seq(self.seq);
        self.tx_buf = Some(buf);
        self.tx_len = len;
    }

    /// Asks for the packet of `len` bytes in `payload` to be sent to
    /// `dest`. The packet stands at the front of `payload` and leaves its
    /// first ten bytes free for the header.
    ///
    /// Fails with `NotStarted` until the startup sequence has completed,
    /// and with `Busy` while an earlier request is in flight. A request
    /// that fails changes nothing and sets nothing off on the bus. Every
    /// other request succeeds: the driver takes the buffer, writes the
    /// header, and keeps the buffer until it hands it back in a
    /// `send_done`.
    ///
    /// Where a frame is arriving or being read out, and where a new short
    /// address or PAN id is on its way to the chip, the request waits:
    /// state and bus are left alone. The transmission begins when the
    /// frame has been delivered, or when the high byte of the new value
    /// has been sent: the step that ends the reception or the change
    /// enters the precheck in place of `Ready`.
    ///
    /// Otherwise the driver enters the precheck at once. With the bus idle
    /// it reads the chip's status for it. With an exchange outstanding it
    /// starts none: the status byte that the completion of that exchange
    /// brings serves the precheck.
    pub fn transmit(&mut self, dest: u16, payload: Vec<u8>, len: u8) -> (out: Outcome)
        requires
            old(self)@.accepts_transmit() ==> payload@.len() >= HEADER_SIZE && len
                <= MAX_PACKET_LEN,
        ensures
            old(self).wf() ==> final(self).wf(),
            final(self)@ == old(self)@.transmit(dest, payload@, len).0,
            out@ == old(self)@.transmit(dest, payload@, len).1,
    {
        if self.state.is_startup() {
            return Outcome::quiet(ReturnCode::NotStarted);
        } else if self.tx_buf.is_some() || self.transmitting {
            return Outcome::quiet(ReturnCode::Busy);
        }
        if self.receiving || self.state.is_receive() || self.state.is_config() {
            self.prepare_packet(payload, len, dest);
            self.transmitting = true;
            return Outcome::quiet(ReturnCode::Success);
        }
        self.prepare_packet(payload, len, dest);
        self.transmitting = true;
        Outcome::step(
            self.state_transition_read(
                RF233Register::TrxStatus,
                InternalState::TxStatusPrecheck1,
            ),
        )
    }
}

} // verus!
