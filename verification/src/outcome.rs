//! What a call into the driver asks its caller to do.
//!
//! The driver performs no I/O. Every entry point returns an [`Outcome`]:
//! the return code of the call and the actions that the caller has to carry
//! out on the bus, on the pins and towards the clients, in the order of the
//! fields.

use vstd::prelude::*;

verus! {

/// Result of a call into the driver.
#[derive(Clone, Copy, PartialEq, Eq, Structural, Debug)]
pub enum ReturnCode {
    Success,
    /// The call is not valid in the state the driver is in.
    Fail,
    /// A bus transaction or a transmission is outstanding, or the
    /// configuration cannot change in this state.
    Busy,
    /// The startup sequence has not completed.
    NotStarted,
    /// The driver has no such operation.
    Unsupported,
}

/// The lines between the processor and the chip.
#[derive(Clone, Copy, PartialEq, Eq, Structural, Debug)]
pub enum Pin {
    Reset,
    Sleep,
    Irq,
}

/// One operation on a pin.
#[derive(Clone, Copy, PartialEq, Eq, Structural, Debug)]
pub enum PinAction {
    MakeOutput(Pin),
    MakeInput(Pin),
    SetHigh(Pin),
    SetLow(Pin),
    /// Set the pin low this many times in a row, which holds the line low
    /// for that long.
    HoldLow(Pin, u32),
    /// Neither pull the input up nor down.
    PullNone(Pin),
    /// Raise an interrupt on every rising edge of the input.
    EnableRisingEdge(Pin),
}

/// Idle level of the bus clock.
#[derive(Clone, Copy, PartialEq, Eq, Structural, Debug)]
pub enum ClockPolarity {
    IdleLow,
    IdleHigh,
}

/// Clock edge on which the bus samples data.
#[derive(Clone, Copy, PartialEq, Eq, Structural, Debug)]
pub enum ClockPhase {
    SampleLeading,
    SampleTrailing,
}

/// Clock settings of the bus.
#[derive(Clone, Copy, PartialEq, Eq, Structural, Debug)]
pub struct BusConfig {
    pub polarity: ClockPolarity,
    pub phase: ClockPhase,
    pub rate: u32,
}

/// Return code and actions of one call into the driver.
#[derive(Debug, PartialEq, Eq)]
pub struct Outcome {
    pub code: ReturnCode,
    /// Clock settings to apply to the bus.
    pub bus_config: Option<BusConfig>,
    /// Pin operations, first to last.
    pub pins: Vec<PinAction>,
    /// Number of bytes to exchange over the bus, out of the driver's write
    /// buffer; the bus moves no more bytes than the buffer holds. The reply
    /// is handed back through `read_write_done`.
    pub exchange: Option<usize>,
    /// The transmit buffer, handed back to the transmit client.
    pub send_done: Option<Vec<u8>>,
    /// Length of a frame that stands at the front of the driver's read
    /// buffer, for the receive client.
    pub receive: Option<u8>,
}

/// An [`Outcome`] as a mathematical value.
#[verifier::ext_equal]
pub ghost struct OutcomeView {
    pub code: ReturnCode,
    pub bus_config: Option<BusConfig>,
    pub pins: Seq<PinAction>,
    pub exchange: Option<usize>,
    pub send_done: Option<Seq<u8>>,
    pub receive: Option<u8>,
}

impl OutcomeView {
    /// A return code and nothing to do.
    pub open spec fn quiet(code: ReturnCode) -> OutcomeView {
        OutcomeView {
            code,
            bus_config: None,
            pins: Seq::empty(),
            exchange: None,
            send_done: None,
            receive: None,
        }
    }

    /// Success, and one bus exchange of `len` bytes to start.
    pub open spec fn bus(len: usize) -> OutcomeView {
        OutcomeView { exchange: Some(len), ..OutcomeView::quiet(ReturnCode::Success) }
    }

    /// Success and, where there is one, a bus exchange to start.
    pub open spec fn step(exchange: Option<usize>) -> OutcomeView {
        OutcomeView { exchange, ..OutcomeView::quiet(ReturnCode::Success) }
    }

    /// Whether nothing has to happen on the bus, on the pins or towards a
    /// client.
    pub open spec fn is_quiet(self) -> bool {
        self == OutcomeView::quiet(self.code)
    }
}

impl View for Outcome {
    type V = OutcomeView;

    open spec fn view(&self) -> OutcomeView {
        OutcomeView {
            code: self.code,
            bus_config: self.bus_config,
            pins: self.pins@,
            exchange: self.exchange,
            send_done: match self.send_done {
                Some(buf) => Some(buf@),
                None => None,
            },
            receive: self.receive,
        }
    }
}

impl Outcome {
    /// A return code and nothing to do.
    pub fn quiet(code: ReturnCode) -> (out: Outcome)
        ensures
            out@ == OutcomeView::quiet(code),
    {
        Outcome {
            code,
            bus_config: None,
            pins: Vec::new(),
            exchange: None,
            send_done: None,
            receive: None,
        }
    }

    /// Success and, where there is one, a bus exchange to start.
    pub fn step(exchange: Option<usize>) -> (out: Outcome)
        ensures
            out@ == OutcomeView::step(exchange),
    {
        Outcome {
            code: ReturnCode::Success,
            bus_config: None,
            pins: Vec::new(),
            exchange,
            send_done: None,
            receive: None,
        }
    }

    /// Success, and one bus exchange of `len` bytes to start.
    pub fn bus(len: usize) -> (out: Outcome)
        ensures
            out@ == OutcomeView::bus(len),
    {
        Outcome {
            code: ReturnCode::Success,
            bus_config: None,
            pins: Vec::new(),
            exchange: Some(len),
            send_done: None,
            receive: None,
        }
    }
}

} // verus!
