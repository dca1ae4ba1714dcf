//! State machine engine: one step for every completed bus exchange.
//!
//! A completion first stores the reply. If an interrupt is pending, the
//! read of the interrupt status starts and nothing else happens. Otherwise,
//! if the reply is the interrupt status, its cause bits are applied. Then
//! the state that the driver is in takes its step.

use vstd::prelude::*;
use crate::codec::{
    high_byte, low_byte, spec_high_byte, spec_low_byte, strip_status, strip_status_byte,
};
use crate::driver::{Model, RF233};
use crate::outcome::{Outcome, OutcomeView, Pin, PinAction, ReturnCode};
use crate::regs::{
    chip_is_busy, mode_code, spec_chip_is_busy, spec_mode_code, RF233Register, CMD_OFF,
    CMD_PLL_ON, CMD_RX_ON, CMD_TX_ARET_ON, CMD_TX_START, CSMA_SEED, IEEE_ADDR_0, IEEE_ADDR_1,
    IEEE_ADDR_2, IEEE_ADDR_3, IEEE_ADDR_4, IEEE_ADDR_5, IEEE_ADDR_6, IEEE_ADDR_7, IRQ_MASK,
    PHY_CC_CCA, PHY_TX_PWR, STATUS_ON, STATUS_PLL_ON, STATUS_RX_ON,
    STATUS_TRANSITION_IN_PROGRESS, TRX_CTRL_1, TRX_CTRL_2, TRX_RPC, XAH_CTRL_0, XAH_CTRL_1,
};
use crate::state::InternalState;

verus! {

/// One access to a register.
pub enum Access {
    Read(RF233Register),
    Write(RF233Register, u8),
}

/// The steps that depend on nothing but the configuration: the register
/// access that the state makes when the exchange it waited for has
/// completed, and the state it enters with it. `None` for the states whose
/// step depends on the reply or on the flags, and for the states that wait.
///
/// PAN id and short address go to the chip low byte first: the low byte to
/// the first register of the pair, the high byte to the second, at startup
/// as with a change in `Ready`.
pub open spec fn fixed_step(state: InternalState, pan: u16, addr: u16) -> Option<
    (Access, InternalState),
> {
    match state {
        InternalState::Start => Some(
            (Access::Read(RF233Register::IrqStatus), InternalState::StartPartRead),
        ),
        InternalState::StartPartRead => Some(
            (Access::Read(RF233Register::TrxStatus), InternalState::StartStatusRead),
        ),
        InternalState::StartTurningOff => Some(
            (Access::Write(RF233Register::TrxCtrl1, TRX_CTRL_1), InternalState::StartCtrl1Set),
        ),
        InternalState::StartCtrl1Set => Some(
            (Access::Write(RF233Register::PhyCcCca, PHY_CC_CCA), InternalState::StartCcaSet),
        ),
        InternalState::StartCcaSet => Some(
            (Access::Write(RF233Register::PhyTxPwr, PHY_TX_PWR), InternalState::StartPwrSet),
        ),
        InternalState::StartPwrSet => Some(
            (Access::Write(RF233Register::TrxCtrl2, TRX_CTRL_2), InternalState::StartCtrl2Set),
        ),
        InternalState::StartCtrl2Set => Some(
            (Access::Write(RF233Register::IrqMask, IRQ_MASK), InternalState::StartIrqmaskSet),
        ),
        InternalState::StartIrqmaskSet => Some(
            (Access::Write(RF233Register::XahCtrl1, XAH_CTRL_1), InternalState::StartXah1Set),
        ),
        InternalState::StartXah1Set => Some(
            (Access::Write(RF233Register::XahCtrl0, XAH_CTRL_0), InternalState::StartXah0Set),
        ),
        InternalState::StartXah0Set => Some(
            (
                Access::Write(RF233Register::PanId0, spec_low_byte(pan)),
                InternalState::StartPanid0Set,
            ),
        ),
        InternalState::StartPanid0Set => Some(
            (
                Access::Write(RF233Register::PanId1, spec_high_byte(pan)),
                InternalState::StartPanid1Set,
            ),
        ),
        InternalState::StartPanid1Set => Some(
            (Access::Write(RF233Register::IeeeAddr0, IEEE_ADDR_0), InternalState::StartIeee0Set),
        ),
        InternalState::StartIeee0Set => Some(
            (Access::Write(RF233Register::IeeeAddr1, IEEE_ADDR_1), InternalState::StartIeee1Set),
        ),
        InternalState::StartIeee1Set => Some(
            (Access::Write(RF233Register::IeeeAddr2, IEEE_ADDR_2), InternalState::StartIeee2Set),
        ),
        InternalState::StartIeee2Set => Some(
            (Access::Write(RF233Register::IeeeAddr3, IEEE_ADDR_3), InternalState::StartIeee3Set),
        ),
        InternalState::StartIeee3Set => Some(
            (Access::Write(RF233Register::IeeeAddr4, IEEE_ADDR_4), InternalState::StartIeee4Set),
        ),
        InternalState::StartIeee4Set => Some(
            (Access::Write(RF233Register::IeeeAddr5, IEEE_ADDR_5), InternalState::StartIeee5Set),
        ),
        InternalState::StartIeee5Set => Some(
            (Access::Write(RF233Register::IeeeAddr6, IEEE_ADDR_6), InternalState::StartIeee6Set),
        ),
        InternalState::StartIeee6Set => Some(
            (Access::Write(RF233Register::IeeeAddr7, IEEE_ADDR_7), InternalState::StartIeee7Set),
        ),
        InternalState::StartIeee7Set => Some(
            (
                Access::Write(RF233Register::ShortAddr0, spec_low_byte(addr)),
                InternalState::StartShort0Set,
            ),
        ),
        InternalState::StartShort0Set => Some(
            (
                Access::Write(RF233Register::ShortAddr1, spec_high_byte(addr)),
                InternalState::StartShort1Set,
            ),
        ),
        InternalState::StartShort1Set => Some(
            (Access::Write(RF233Register::CsmaSeed0, CSMA_SEED), InternalState::StartCsmaSeeded),
        ),
        InternalState::StartCsmaSeeded => Some(
            (Access::Write(RF233Register::TrxRpc, TRX_RPC), InternalState::StartRpcSet),
        ),
        InternalState::StartRpcSet => Some(
            (Access::Read(RF233Register::TrxStatus), InternalState::OnStatusRead),
        ),
        InternalState::OnStatusRead => Some(
            (Access::Write(RF233Register::TrxState, CMD_PLL_ON), InternalState::OnPllWaiting),
        ),
        InternalState::OnPllSet => Some(
            (Access::Write(RF233Register::TrxState, CMD_RX_ON), InternalState::Ready),
        ),
        InternalState::TxWritingFrame => Some(
            (Access::Read(RF233Register::TrxStatus), InternalState::TxStatusPrecheck2),
        ),
        InternalState::TxPllStart => Some(
            (Access::Read(RF233Register::TrxStatus), InternalState::TxPllWait),
        ),
        InternalState::TxAretOn => Some(
            (Access::Write(RF233Register::TrxState, CMD_TX_START), InternalState::TxTransmitting),
        ),
        InternalState::TxDone => Some(
            (Access::Write(RF233Register::TrxState, CMD_RX_ON), InternalState::TxReturnToRx),
        ),
        _ => None,
    }
}

/// The states in which a completion sets nothing off: `Ready`, and the
/// states that wait for an interrupt.
pub open spec fn waits(state: InternalState) -> bool {
    match state {
        InternalState::Ready
        | InternalState::OnPllWaiting
        | InternalState::TxTransmitting
        | InternalState::TxPending
        | InternalState::Rx => true,
        _ => false,
    }
}

/// The pin operations that arm the interrupt line. They go with the step
/// out of `StartTurningOff`, so the line is armed at startup only where
/// the chip reported that it had just been powered.
pub open spec fn irq_pin_setup() -> Seq<PinAction> {
    seq![
        PinAction::MakeInput(Pin::Irq),
        PinAction::SetLow(Pin::Irq),
        PinAction::PullNone(Pin::Irq),
        PinAction::EnableRisingEdge(Pin::Irq),
    ]
}

impl Model {
    /// Enter `next` and make `access`.
    pub open spec fn go(self, access: Access, next: InternalState) -> (Model, OutcomeView) {
        let r = match access {
            Access::Read(reg) => self.state_transition_read(reg, next),
            Access::Write(reg, val) => self.state_transition_write(reg, val, next),
        };
        (r.0, OutcomeView::step(r.1))
    }

    /// The state that follows a change of short address or PAN id: the
    /// precheck of a transmission where a request has waited for the
    /// change to end, `Ready` otherwise. The status byte that the write of
    /// the high byte brings back serves the precheck.
    pub open spec fn after_config(self) -> InternalState {
        if self.transmitting {
            InternalState::TxStatusPrecheck1
        } else {
            InternalState::Ready
        }
    }

    /// The step of the state that the driver is in. `read_buf[0]` is the
    /// status byte of the exchange that has completed.
    pub open spec fn advance(self) -> (Model, OutcomeView) {
        let status = self.read_buf[0];
        match self.state {
            InternalState::StartStatusRead => if status == STATUS_ON {
                self.go(
                    Access::Write(RF233Register::TrxState, CMD_OFF),
                    InternalState::StartTurningOff,
                )
            } else {
                self.go(
                    Access::Write(RF233Register::TrxCtrl1, TRX_CTRL_1),
                    InternalState::StartCtrl1Set,
                )
            },
            InternalState::StartTurningOff => {
                let r = self.go(
                    Access::Write(RF233Register::TrxCtrl1, TRX_CTRL_1),
                    InternalState::StartCtrl1Set,
                );
                (r.0, OutcomeView { pins: irq_pin_setup(), ..r.1 })
            },
            InternalState::TxStatusPrecheck1 => if spec_chip_is_busy(status) {
                (
                    Model { state: InternalState::TxPending, ..self },
                    OutcomeView::quiet(ReturnCode::Success),
                )
            } else {
                let m = Model { state: InternalState::TxWritingFrame, ..self };
                match self.tx_buf {
                    Some(buf) => {
                        let r = m.frame_write(buf, self.tx_len);
                        (r.0, OutcomeView::step(r.1.exchange))
                    },
                    None => (m, OutcomeView::quiet(ReturnCode::Success)),
                }
            },
            InternalState::TxStatusPrecheck2 => if spec_chip_is_busy(status) {
                (
                    Model { receiving: true, state: InternalState::Rx, ..self },
                    OutcomeView::quiet(ReturnCode::Success),
                )
            } else {
                self.go(
                    Access::Write(RF233Register::TrxState, CMD_PLL_ON),
                    InternalState::TxPllStart,
                )
            },
            InternalState::TxPllWait => {
                let m = Model { transmitting: true, ..self };
                if spec_mode_code(status) == STATUS_TRANSITION_IN_PROGRESS {
                    m.go(Access::Read(RF233Register::TrxStatus), InternalState::TxPllWait)
                } else if spec_mode_code(status) != STATUS_PLL_ON {
                    m.go(
                        Access::Write(RF233Register::TrxState, CMD_PLL_ON),
                        InternalState::TxPllWait,
                    )
                } else {
                    m.go(
                        Access::Write(RF233Register::TrxState, CMD_TX_ARET_ON),
                        InternalState::TxAretOn,
                    )
                }
            },
            InternalState::TxReturnToRx => if status == STATUS_RX_ON {
                let r = Model { transmitting: false, tx_buf: None, ..self }.go(
                    Access::Read(RF233Register::TrxStatus),
                    InternalState::Ready,
                );
                (r.0, OutcomeView { send_done: self.tx_buf, ..r.1 })
            } else {
                let r = self.register_read(RF233Register::TrxStatus);
                (r.0, OutcomeView::step(r.1.exchange))
            },
            InternalState::RxReading => {
                let r = Model { state: InternalState::RxLenRead, ..self }.frame_read(1);
                (r.0, OutcomeView::step(r.1.exchange))
            },
            InternalState::RxLenRead => {
                let r = Model { state: InternalState::RxRead, ..self }.frame_read(
                    self.read_buf[1],
                );
                (r.0, OutcomeView::step(r.1.exchange))
            },
            InternalState::RxRead => {
                let frame = strip_status(self.read_buf);
                let m = Model { read_buf: frame, receiving: false, ..self };
                let next = if self.transmitting {
                    InternalState::TxStatusPrecheck1
                } else {
                    InternalState::Ready
                };
                let r = m.go(Access::Read(RF233Register::TrxStatus), next);
                (r.0, OutcomeView { receive: Some(self.read_buf[1]), ..r.1 })
            },
            InternalState::ConfigShort0Set => self.go(
                Access::Write(RF233Register::ShortAddr1, spec_high_byte(self.addr)),
                self.after_config(),
            ),
            InternalState::ConfigPan0Set => self.go(
                Access::Write(RF233Register::PanId1, spec_high_byte(self.pan)),
                self.after_config(),
            ),
            _ => match fixed_step(self.state, self.pan, self.addr) {
                Some((access, next)) => self.go(access, next),
                None => (self, OutcomeView::quiet(ReturnCode::Success)),
            },
        }
    }

    /// The outstanding exchange has completed with the bytes `read`.
    pub open spec fn read_write_done(self, read: Seq<u8>) -> (Model, OutcomeView) {
        let m = self.store_reply(read);
        if m.interrupt_pending {
            Model { interrupt_pending: false, ..m }.handle_interrupt()
        } else if m.interrupt_handling {
            Model { interrupt_handling: false, ..m }.arbitrate(m.read_buf[1]).advance()
        } else {
            m.advance()
        }
    }
}

/// The step of a state restores the invariant of the driver. When an
/// exchange has completed, the bus is idle for the moment, and all of the
/// invariant holds but what it says of an outstanding exchange; after the
/// step all of it holds again.
pub proof fn lemma_advance_keeps_wf(m: Model)
    requires
        !m.spi_busy,
        m.steady(),
        (Model { spi_busy: true, ..m }).wf(),
    ensures
        m.advance().0.wf(),
{
}

/// A completion keeps the invariant of the driver.
pub proof fn lemma_read_write_done_keeps_wf(m: Model, read: Seq<u8>)
    requires
        m.wf(),
    ensures
        m.read_write_done(read).0.wf(),
{
    let arrived = m.store_reply(read);
    if arrived.interrupt_pending {
    } else if arrived.interrupt_handling {
        let cleared = Model { interrupt_handling: false, ..arrived };
        lemma_advance_keeps_wf(cleared.arbitrate(arrived.read_buf[1]));
    } else {
        lemma_advance_keeps_wf(arrived);
    }
}

impl RF233 {
    /// The step of a startup state, from `Start` to `OnPllSet`.
    fn advance_startup(&mut self) -> (out: Outcome)
        requires
            old(self).state.spec_is_startup(),
        ensures
            final(self)@ == old(self)@.advance().0,
            out@ == old(self)@.advance().1,
    {
        let mut pins: Vec<PinAction> = Vec::new();
        let exchange = match self.state {
            InternalState::Start => self.state_transition_read(
                RF233Register::IrqStatus,
                InternalState::StartPartRead,
            ),
            InternalState::StartPartRead => self.state_transition_read(
                RF233Register::TrxStatus,
                InternalState::StartStatusRead,
            ),
            InternalState::StartStatusRead => {
                let status: u8 = self.read_buf[0];
                if status == STATUS_ON {
                    self.state_transition_write(
                        RF233Register::TrxState,
                        CMD_OFF,
                        InternalState::StartTurningOff,
                    )
                } else {
                    self.state_transition_write(
                        RF233Register::TrxCtrl1,
                        TRX_CTRL_1,
                        InternalState::StartCtrl1Set,
                    )
                }
            },
            InternalState::StartTurningOff => {
                pins.push(PinAction::MakeInput(Pin::Irq));
                pins.push(PinAction::SetLow(Pin::Irq));
                pins.push(PinAction::PullNone(Pin::Irq));
                pins.push(PinAction::EnableRisingEdge(Pin::Irq));
                self.state_transition_write(
                    RF233Register::TrxCtrl1,
                    TRX_CTRL_1,
                    InternalState::StartCtrl1Set,
                )
            },
            InternalState::StartCtrl1Set => self.state_transition_write(
                RF233Register::PhyCcCca,
                PHY_CC_CCA,
                InternalState::StartCcaSet,
            ),
            InternalState::StartCcaSet => self.state_transition_write(
                RF233Register::PhyTxPwr,
                PHY_TX_PWR,
                InternalState::StartPwrSet,
            ),
            InternalState::StartPwrSet => self.state_transition_write(
                RF233Register::TrxCtrl2,
                TRX_CTRL_2,
                InternalState::StartCtrl2Set,
            ),
            InternalState::StartCtrl2Set => self.state_transition_write(
                RF233Register::IrqMask,
                IRQ_MASK,
                InternalState::StartIrqmaskSet,
            ),
            InternalState::StartIrqmaskSet => self.state_transition_write(
                RF233Register::XahCtrl1,
                XAH_CTRL_1,
                InternalState::StartXah1Set,
            ),
            InternalState::StartXah1Set => self.state_transition_write(
                RF233Register::XahCtrl0,
                XAH_CTRL_0,
                InternalState::StartXah0Set,
            ),
            InternalState::StartXah0Set => self.state_transition_write(
                RF233Register::PanId0,
                low_byte(self.pan),
                InternalState::StartPanid0Set,
            ),
            InternalState::StartPanid0Set => self.state_transition_write(
                RF233Register::PanId1,
                high_byte(self.pan),
                InternalState::StartPanid1Set,
            ),
            InternalState::StartPanid1Set => self.state_transition_write(
                RF233Register::IeeeAddr0,
                IEEE_ADDR_0,
                InternalState::StartIeee0Set,
            ),
            InternalState::StartIeee0Set => self.state_transition_write(
                RF233Register::IeeeAddr1,
                IEEE_ADDR_1,
                InternalState::StartIeee1Set,
            ),
            InternalState::StartIeee1Set => self.state_transition_write(
                RF233Register::IeeeAddr2,
                IEEE_ADDR_2,
                InternalState::StartIeee2Set,
            ),
            InternalState::StartIeee2Set => self.state_transition_write(
                RF233Register::IeeeAddr3,
                IEEE_ADDR_3,
                InternalState::StartIeee3Set,
            ),
            InternalState::StartIeee3Set => self.state_transition_write(
                RF233Register::IeeeAddr4,
                IEEE_ADDR_4,
                InternalState::StartIeee4Set,
            ),
            InternalState::StartIeee4Set => self.state_transition_write(
                RF233Register::IeeeAddr5,
                IEEE_ADDR_5,
                InternalState::StartIeee5Set,
            ),
            InternalState::StartIeee5Set => self.state_transition_write(
                RF233Register::IeeeAddr6,
                IEEE_ADDR_6,
                InternalState::StartIeee6Set,
            ),
            InternalState::StartIeee6Set => self.state_transition_write(
                RF233Register::IeeeAddr7,
                IEEE_ADDR_7,
                InternalState::StartIeee7Set,
            ),
            InternalState::StartIeee7Set => self.state_transition_write(
                RF233Register::ShortAddr0,
                low_byte(self.addr),
                InternalState::StartShort0Set,
            ),
            InternalState::StartShort0Set => self.state_transition_write(
                RF233Register::ShortAddr1,
                high_byte(self.addr),
                InternalState::StartShort1Set,
            ),
            InternalState::StartShort1Set => self.state_transition_write(
                RF233Register::CsmaSeed0,
                CSMA_SEED,
                InternalState::StartCsmaSeeded,
            ),
            InternalState::StartCsmaSeeded => self.state_transition_write(
                RF233Register::TrxRpc,
                TRX_RPC,
                InternalState::StartRpcSet,
            ),
            InternalState::StartRpcSet => self.state_transition_read(
                RF233Register::TrxStatus,
                InternalState::OnStatusRead,
            ),
            InternalState::OnStatusRead => self.state_transition_write(
                RF233Register::TrxState,
                CMD_PLL_ON,
                InternalState::OnPllWaiting,
            ),
            InternalState::OnPllSet => self.state_transition_write(
                RF233Register::TrxState,
                CMD_RX_ON,
                InternalState::Ready,
            ),
            _ => None,
        };
        proof {
            if old(self).state == InternalState::StartTurningOff {
                assert(pins@ =~= irq_pin_setup());
            }
        }
        Outcome {
            code: ReturnCode::Success,
            bus_config: None,
            pins,
            exchange,
            send_done: None,
            receive: None,
        }
    }

    /// The step of `TxStatusPrecheck1`: with the chip in the middle of a
    /// frame the transmission waits in `TxPending`; otherwise the frame
    /// goes to the chip.
    fn advance_precheck(&mut self) -> (out: Outcome)
        requires
            old(self).state == InternalState::TxStatusPrecheck1,
        ensures
            final(self)@ == old(self)@.advance().0,
            out@ == old(self)@.advance().1,
    {
        let status: u8 = self.read_buf[0];
        if chip_is_busy(status) {
            self.state = InternalState::TxPending;
            return Outcome::quiet(ReturnCode::Success);
        }
        self.state = InternalState::TxWritingFrame;
        let held = self.tx_buf.take();
        match held {
            Some(buf) => {
                let len: u8 = self.tx_len;
                let sent = self.frame_write(buf.as_slice(), len);
                self.tx_buf = Some(buf);
                Outcome::step(sent.exchange)
            },
            None => Outcome::quiet(ReturnCode::Success),
        }
    }

    /// The step of `TxReturnToRx`: once the chip listens again, the
    /// transmit buffer goes back to the client; until then the status is
    /// read again.
    fn advance_return_to_rx(&mut self) -> (out: Outcome)
        requires
            old(self).state == InternalState::TxReturnToRx,
        ensures
            final(self)@ == old(self)@.advance().0,
            out@ == old(self)@.advance().1,
    {
        let status: u8 = self.read_buf[0];
        if status == STATUS_RX_ON {
            self.transmitting = false;
            let buf = self.tx_buf.take();
            let exchange = self.state_transition_read(
                RF233Register::TrxStatus,
                InternalState::Ready,
            );
            Outcome {
                code: ReturnCode::Success,
                bus_config: None,
                pins: Vec::new(),
                exchange,
                send_done: buf,
                receive: None,
            }
        } else {
            let read = self.register_read(RF233Register::TrxStatus);
            Outcome::step(read.exchange)
        }
    }

    /// The step of a transmit state.
    fn advance_transmit(&mut self) -> (out: Outcome)
        requires
            old(self).state.is_transmit(),
        ensures
            final(self)@ == old(self)@.advance().0,
            out@ == old(self)@.advance().1,
    {
        let status: u8 = self.read_buf[0];
        match self.state {
            InternalState::TxStatusPrecheck1 => self.advance_precheck(),
            InternalState::TxWritingFrame => Outcome::step(
                self.state_transition_read(
                    RF233Register::TrxStatus,
                    InternalState::TxStatusPrecheck2,
                ),
            ),
            InternalState::TxStatusPrecheck2 => {
                if chip_is_busy(status) {
                    self.receiving = true;
                    self.state = InternalState::Rx;
                    Outcome::quiet(ReturnCode::Success)
                } else {
                    Outcome::step(
                        self.state_transition_write(
                            RF233Register::TrxState,
                            CMD_PLL_ON,
                            InternalState::TxPllStart,
                        ),
                    )
                }
            },
            InternalState::TxPllStart => Outcome::step(
                self.state_transition_read(RF233Register::TrxStatus, InternalState::TxPllWait),
            ),
            InternalState::TxPllWait => {
                self.transmitting = true;
                let code: u8 = mode_code(status);
                if code == STATUS_TRANSITION_IN_PROGRESS {
                    Outcome::step(
                        self.state_transition_read(
                            RF233Register::TrxStatus,
                            InternalState::TxPllWait,
                        ),
                    )
                } else if code != STATUS_PLL_ON {
                    Outcome::step(
                        self.state_transition_write(
                            RF233Register::TrxState,
                            CMD_PLL_ON,
                            InternalState::TxPllWait,
                        ),
                    )
                } else {
                    Outcome::step(
                        self.state_transition_write(
                            RF233Register::TrxState,
                            CMD_TX_ARET_ON,
                            InternalState::TxAretOn,
                        ),
                    )
                }
            },
            InternalState::TxAretOn => Outcome::step(
                self.state_transition_write(
                    RF233Register::TrxState,
                    CMD_TX_START,
                    InternalState::TxTransmitting,
                ),
            ),
            InternalState::TxDone => Outcome::step(
                self.state_transition_write(
                    RF233Register::TrxState,
                    CMD_RX_ON,
                    InternalState::TxReturnToRx,
                ),
            ),
            InternalState::TxReturnToRx => self.advance_return_to_rx(),
            _ => Outcome::quiet(ReturnCode::Success),
        }
    }

    /// The step of a receive state.
    fn advance_receive(&mut self) -> (out: Outcome)
        requires
            old(self).state.is_receive(),
        ensures
            final(self)@ == old(self)@.advance().0,
            out@ == old(self)@.advance().1,
    {
        match self.state {
            InternalState::RxReading => {
                self.state = InternalState::RxLenRead;
                let read = self.frame_read(1);
                Outcome::step(read.exchange)
            },
            InternalState::RxLenRead => {
                self.state = InternalState::RxRead;
                let len: u8 = self.read_buf[1];
                let read = self.frame_read(len);
                Outcome::step(read.exchange)
            },
            InternalState::RxRead => {
                let len: u8 = strip_status_byte(&mut self.read_buf);
                self.receiving = false;
                let exchange = if self.transmitting {
                    self.state_transition_read(
                        RF233Register::TrxStatus,
                        InternalState::TxStatusPrecheck1,
                    )
                } else {
                    self.state_transition_read(RF233Register::TrxStatus, InternalState::Ready)
                };
                Outcome {
                    code: ReturnCode::Success,
                    bus_config: None,
                    pins: Vec::new(),
                    exchange,
                    send_done: None,
                    receive: Some(len),
                }
            },
            _ => Outcome::quiet(ReturnCode::Success),
        }
    }

    /// The step of the state that the driver is in.
    fn advance(&mut self) -> (out: Outcome)
        ensures
            final(self)@ == old(self)@.advance().0,
            out@ == old(self)@.advance().1,
    {
        match self.state {
            InternalState::Ready => Outcome::quiet(ReturnCode::Success),
            InternalState::ConfigShort0Set => {
                let next = if self.transmitting {
                    InternalState::TxStatusPrecheck1
                } else {
                    InternalState::Ready
                };
                Outcome::step(
                    self.state_transition_write(
                        RF233Register::ShortAddr1,
                        high_byte(self.addr),
                        next,
                    ),
                )
            },
            InternalState::ConfigPan0Set => {
                let next = if self.transmitting {
                    InternalState::TxStatusPrecheck1
                } else {
                    InternalState::Ready
                };
                Outcome::step(
                    self.state_transition_write(RF233Register::PanId1, high_byte(self.pan), next),
                )
            },
            InternalState::Rx
            | InternalState::RxReading
            | InternalState::RxLenRead
            | InternalState::RxRead => self.advance_receive(),
            InternalState::TxStatusPrecheck1
            | InternalState::TxWritingFrame
            | InternalState::TxStatusPrecheck2
            | InternalState::TxPllStart
            | InternalState::TxPllWait
            | InternalState::TxAretOn
            | InternalState::TxTransmitting
            | InternalState::TxDone
            | InternalState::TxReturnToRx
            | InternalState::TxPending => self.advance_transmit(),
            _ => self.advance_startup(),
        }
    }

    /// Takes the completion of the outstanding bus exchange; `read` holds
    /// the bytes that the chip sent.
    ///
    /// The reply is stored at the front of the read buffer and the bus is
    /// idle again. Then exactly one of three things happens:
    ///
    /// - an interrupt is pending: the flag is cleared, the read of the
    ///   interrupt status starts, and the state does not move;
    /// - the reply is the interrupt status: its cause bits are applied, and
    ///   the state that results takes its step;
    /// - otherwise the state takes its step.
    pub fn read_write_done(&mut self, read: &[u8]) -> (out: Outcome)
        ensures
            old(self).wf() ==> final(self).wf(),
            final(self)@ == old(self)@.read_write_done(read@).0,
            out@ == old(self)@.read_write_done(read@).1,
    {
        proof {
            if self.wf() {
                lemma_read_write_done_keeps_wf(self@, read@);
            }
        }
        self.store_reply(read);
        let handling = self.interrupt_handling;
        if self.interrupt_pending {
            self.interrupt_pending = false;
            return self.handle_interrupt();
        }
        if handling {
            self.interrupt_handling = false;
            let irq: u8 = self.read_buf[1];
            self.arbitrate(irq);
        }
        self.advance()
    }
}

} // verus!
