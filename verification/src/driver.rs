//! The driver's data: one operating state, the flags beside it, the cached
//! configuration, the transmit request in flight and the two transfer
//! buffers.

use vstd::prelude::*;
use crate::state::InternalState;

verus! {

/// Size of each transfer buffer: the longest frame together with its
/// length byte, and one byte for the bus command or the chip's status.
pub const BUFFER_SIZE: usize = 129;

/// Length of the header that the driver writes at the front of every
/// transmit buffer.
pub const HEADER_SIZE: u8 = 10;

/// Driver for the transceiver. It owns all of its state and performs no
/// I/O: the caller moves bytes over the bus, drives the pins and calls the
/// clients as the returned outcomes say.
pub struct RF233 {
    pub(crate) radio_on: bool,
    pub(crate) transmitting: bool,
    pub(crate) receiving: bool,
    pub(crate) spi_busy: bool,
    pub(crate) interrupt_handling: bool,
    pub(crate) interrupt_pending: bool,
    pub(crate) state: InternalState,
    pub(crate) tx_buf: Option<Vec<u8>>,
    pub(crate) tx_len: u8,
    pub(crate) addr: u16,
    pub(crate) pan: u16,
    pub(crate) seq: u8,
    pub(crate) read_buf: [u8; 129],
    pub(crate) write_buf: [u8; 129],
}

/// The driver as a mathematical value. The transitions of the driver are
/// spec functions on this type.
#[verifier::ext_equal]
pub ghost struct Model {
    /// The radio was taken out of reset.
    pub radio_on: bool,
    /// A transmission was requested and has not completed.
    pub transmitting: bool,
    /// A frame has started to arrive and has not ended.
    pub receiving: bool,
    /// A bus transaction is outstanding.
    pub spi_busy: bool,
    /// The outstanding bus transaction reads the interrupt status.
    pub interrupt_handling: bool,
    /// An interrupt came while a bus transaction was outstanding.
    pub interrupt_pending: bool,
    pub state: InternalState,
    /// The buffer of the transmit request in flight.
    pub tx_buf: Option<Seq<u8>>,
    pub tx_len: u8,
    pub addr: u16,
    pub pan: u16,
    /// Sequence number of the next frame.
    pub seq: u8,
    pub read_buf: Seq<u8>,
    pub write_buf: Seq<u8>,
}

impl Model {
    /// The driver before anything has happened.
    pub open spec fn initial() -> Model {
        Model {
            radio_on: false,
            transmitting: false,
            receiving: false,
            spi_busy: false,
            interrupt_handling: false,
            interrupt_pending: false,
            state: InternalState::Start,
            tx_buf: None,
            tx_len: 0,
            addr: 0,
            pan: 0,
            seq: 0,
            read_buf: Seq::new(BUFFER_SIZE as nat, |i: int| 0u8),
            write_buf: Seq::new(BUFFER_SIZE as nat, |i: int| 0u8),
        }
    }

    /// No interrupt is pending and none is being served.
    pub open spec fn steady(self) -> bool {
        !self.interrupt_pending && !self.interrupt_handling
    }

    /// What holds of the driver at all times:
    ///
    /// - the transfer buffers have their size;
    /// - a transmission that was requested or is under way holds its
    ///   buffer;
    /// - an interrupt that waits for the bus, or whose cause is being read,
    ///   has an exchange outstanding, whose completion will take it up;
    /// - the receiving flag is set exactly while the driver waits for the
    ///   end of a frame that has started; the read-out that follows is told
    ///   by the state alone;
    /// - a new short address or PAN id that is on its way to the chip has
    ///   its write outstanding;
    /// - during startup no transmit request is in flight, and in `Ready`
    ///   none waits to begin.
    pub open spec fn wf(self) -> bool {
        &&& self.read_buf.len() == BUFFER_SIZE
        &&& self.write_buf.len() == BUFFER_SIZE
        &&& (self.transmitting || self.state.is_transmit()) ==> self.tx_buf is Some
        &&& (self.interrupt_pending || self.interrupt_handling) ==> self.spi_busy
        &&& self.receiving <==> self.state == InternalState::Rx
        &&& self.state.spec_is_config() ==> self.spi_busy
        &&& self.state.spec_is_startup() ==> self.tx_buf is None && !self.transmitting
        &&& self.state == InternalState::Ready ==> !self.transmitting
    }
}

impl RF233 {
    pub open(crate) spec fn view(&self) -> Model {
        Model {
            radio_on: self.radio_on,
            transmitting: self.transmitting,
            receiving: self.receiving,
            spi_busy: self.spi_busy,
            interrupt_handling: self.interrupt_handling,
            interrupt_pending: self.interrupt_pending,
            state: self.state,
            tx_buf: match self.tx_buf {
                Some(buf) => Some(buf@),
                None => None,
            },
            tx_len: self.tx_len,
            addr: self.addr,
            pan: self.pan,
            seq: self.seq,
            read_buf: self.read_buf@,
            write_buf: self.write_buf@,
        }
    }

    /// The invariant of the driver, which `new` establishes and every
    /// method keeps. No method needs it to be called.
    pub open spec fn wf(&self) -> bool {
        self@.wf()
    }

    /// A driver in its initial state, with address and PAN id zero.
    pub fn new() -> (radio: RF233)
        ensures
            radio.wf(),
            radio@ == Model::initial(),
    {
        RF233 {
            radio_on: false,
            transmitting: false,
            receiving: false,
            spi_busy: false,
            interrupt_handling: false,
            interrupt_pending: false,
            state: InternalState::Start,
            tx_buf: None,
            tx_len: 0,
            addr: 0,
            pan: 0,
            seq: 0,
            read_buf: [0u8; 129],
            write_buf: [0u8; 129],
        }
    }

    /// The state that the driver is in.
    pub fn state(&self) -> (state: InternalState)
        ensures
            state == self@.state,
    {
        self.state
    }

    /// The short address that the driver puts into its frames.
    pub fn address(&self) -> (addr: u16)
        ensures
            addr == self@.addr,
    {
        self.addr
    }

    /// The PAN id that the driver puts into its frames.
    pub fn pan(&self) -> (pan: u16)
        ensures
            pan == self@.pan,
    {
        self.pan
    }

    /// Whether the radio was taken out of reset.
    pub fn is_on(&self) -> (on: bool)
        ensures
            on == self@.radio_on,
    {
        self.radio_on
    }

    /// Whether a bus exchange is outstanding.
    pub fn bus_is_busy(&self) -> (busy: bool)
        ensures
            busy == self@.spi_busy,
    {
        self.spi_busy
    }

    /// Whether an interrupt waits for the bus.
    pub fn interrupt_is_pending(&self) -> (pending: bool)
        ensures
            pending == self@.interrupt_pending,
    {
        self.interrupt_pending
    }

    /// Whether a transmission was requested and has not completed.
    pub fn is_transmitting(&self) -> (transmitting: bool)
        ensures
            transmitting == self@.transmitting,
    {
        self.transmitting
    }

    /// Whether a frame has started to arrive and has not ended.
    pub fn is_receiving(&self) -> (receiving: bool)
        ensures
            receiving == self@.receiving,
    {
        self.receiving
    }
}

} // verus!
