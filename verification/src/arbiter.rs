//! Interrupt arbitrator: reconciles the chip's interrupt line with a bus
//! that carries one exchange at a time.
//!
//! An edge on the interrupt line asks for a read of the interrupt status
//! register. With the bus idle the read starts at once. With the bus busy
//! the edge is remembered, and the read starts when the outstanding
//! exchange completes, ahead of whatever that completion would otherwise
//! have set off.

use vstd::prelude::*;
use crate::driver::{Model, RF233};
use crate::outcome::{Outcome, OutcomeView, ReturnCode};
use crate::regs::{
    has_bits, spec_has_bits, RF233Register, IRQ_0_PLL_LOCK, IRQ_2_RX_START, IRQ_3_TRX_END,
};
use crate::state::InternalState;

verus! {

impl Model {
    /// An edge on the interrupt line.
    pub open spec fn handle_interrupt(self) -> (Model, OutcomeView) {
        if self.spi_busy {
            (Model { interrupt_pending: true, ..self }, OutcomeView::quiet(ReturnCode::Success))
        } else {
            Model { interrupt_handling: true, ..self }.register_read(RF233Register::IrqStatus)
        }
    }

    /// The driver after the interrupt status `irq` has been read. Four
    /// checks apply, in this order:
    ///
    /// 1. waiting for the PLL, and it has locked: the PLL is set;
    /// 2. a frame is on the air, and a frame has ended: the transmission
    ///    is done;
    /// 3. a frame has started: a reception is under way, whatever the
    ///    state was;
    /// 4. a reception is under way, and a frame has ended: the frame is
    ///    ready to be read.
    pub open spec fn arbitrate(self, irq: u8) -> Model {
        let first = if self.state == InternalState::OnPllWaiting {
            if spec_has_bits(irq, IRQ_0_PLL_LOCK) {
                Model { state: InternalState::OnPllSet, ..self }
            } else {
                self
            }
        } else if self.state == InternalState::TxTransmitting && spec_has_bits(
            irq,
            IRQ_3_TRX_END,
        ) {
            Model { state: InternalState::TxDone, ..self }
        } else {
            self
        };
        let second = if spec_has_bits(irq, IRQ_2_RX_START) {
            Model { receiving: true, state: InternalState::Rx, ..first }
        } else {
            first
        };
        if second.receiving && spec_has_bits(irq, IRQ_3_TRX_END) {
            Model { receiving: false, state: InternalState::RxReading, ..second }
        } else {
            second
        }
    }
}

impl RF233 {
    /// Takes an edge on the interrupt line.
    ///
    /// With the bus idle, the outcome asks for a read of the interrupt
    /// status register, and the completion of that read will be taken as
    /// the cause of the interrupt. With the bus busy, the edge is
    /// remembered and nothing else happens.
    pub fn handle_interrupt(&mut self) -> (out: Outcome)
        ensures
            old(self).wf() ==> final(self).wf(),
            final(self)@ == old(self)@.handle_interrupt().0,
            out@ == old(self)@.handle_interrupt().1,
    {
        if !self.spi_busy {
            self.interrupt_handling = true;
            self.register_read(RF233Register::IrqStatus)
        } else {
            self.interrupt_pending = true;
            Outcome::quiet(ReturnCode::Success)
        }
    }

    /// The interrupt line has fired. The identifier of the line tells
    /// nothing, as the chip has one.
    pub fn fired(&mut self, _identifier: usize) -> (out: Outcome)
        ensures
            old(self).wf() ==> final(self).wf(),
            final(self)@ == old(self)@.handle_interrupt().0,
            out@ == old(self)@.handle_interrupt().1,
    {
        self.handle_interrupt()
    }

    /// Applies the cause bits `irq` of an interrupt to state and flags.
    pub(crate) fn arbitrate(&mut self, irq: u8)
        ensures
            final(self)@ == old(self)@.arbitrate(irq),
    {
        if self.state == InternalState::OnPllWaiting {
            if has_bits(irq, IRQ_0_PLL_LOCK) {
                self.state = InternalState::OnPllSet;
            }
        } else if self.state == InternalState::TxTransmitting && has_bits(irq, IRQ_3_TRX_END) {
            self.state = InternalState::TxDone;
        }
        if has_bits(irq, IRQ_2_RX_START) {
            self.receiving = true;
            self.state = InternalState::Rx;
        }
        if self.receiving && has_bits(irq, IRQ_3_TRX_END) {
            self.receiving = false;
            self.state = InternalState::RxReading;
        }
    }
}

} // verus!
