//! The operating state of the driver.

use vstd::prelude::*;

verus! {

/// Where the driver stands. Exactly one state is active at any time. A
/// state is named after the bus transaction whose completion it waits for,
/// or after the interrupt it waits for.
#[derive(Clone, Copy, PartialEq, Eq, Structural, Debug)]
pub enum InternalState {
    /// Nothing has been sent to the chip yet.
    Start,
    StartPartRead,
    StartStatusRead,
    StartTurningOff,
    StartCtrl1Set,
    StartCcaSet,
    StartPwrSet,
    StartCtrl2Set,
    StartIrqmaskSet,
    StartXah1Set,
    StartXah0Set,
    StartPanid0Set,
    StartPanid1Set,
    StartIeee0Set,
    StartIeee1Set,
    StartIeee2Set,
    StartIeee3Set,
    StartIeee4Set,
    StartIeee5Set,
    StartIeee6Set,
    StartIeee7Set,
    StartShort0Set,
    StartShort1Set,
    StartCsmaSeeded,
    StartRpcSet,
    OnStatusRead,
    /// The PLL was switched on; the lock interrupt has not come yet.
    OnPllWaiting,
    OnPllSet,
    /// The chip listens; transmit requests and receive interrupts are
    /// accepted.
    Ready,
    TxStatusPrecheck1,
    TxWritingFrame,
    TxStatusPrecheck2,
    TxPllStart,
    TxPllWait,
    TxAretOn,
    /// The frame is on the air; the frame-end interrupt has not come yet.
    TxTransmitting,
    TxDone,
    TxReturnToRx,
    /// A transmission was about to begin when the chip turned out to be
    /// receiving. Only the frame-start interrupt leads out of this state.
    TxPending,
    /// The low byte of a new short address is on its way to the chip.
    ConfigShort0Set,
    /// The low byte of a new PAN id is on its way to the chip.
    ConfigPan0Set,
    /// A frame is arriving; the frame-end interrupt has not come yet.
    Rx,
    RxReading,
    RxLenRead,
    RxRead,
}

impl InternalState {
    /// The states of the startup sequence, from the first one up to the
    /// last before `Ready`.
    pub open spec fn spec_is_startup(self) -> bool {
        match self {
            InternalState::Start
            | InternalState::StartPartRead
            | InternalState::StartStatusRead
            | InternalState::StartTurningOff
            | InternalState::StartCtrl1Set
            | InternalState::StartCcaSet
            | InternalState::StartPwrSet
            | InternalState::StartCtrl2Set
            | InternalState::StartIrqmaskSet
            | InternalState::StartXah1Set
            | InternalState::StartXah0Set
            | InternalState::StartPanid0Set
            | InternalState::StartPanid1Set
            | InternalState::StartIeee0Set
            | InternalState::StartIeee1Set
            | InternalState::StartIeee2Set
            | InternalState::StartIeee3Set
            | InternalState::StartIeee4Set
            | InternalState::StartIeee5Set
            | InternalState::StartIeee6Set
            | InternalState::StartIeee7Set
            | InternalState::StartShort0Set
            | InternalState::StartShort1Set
            | InternalState::StartCsmaSeeded
            | InternalState::StartRpcSet
            | InternalState::OnStatusRead
            | InternalState::OnPllWaiting
            | InternalState::OnPllSet => true,
            _ => false,
        }
    }

    #[verifier::when_used_as_spec(spec_is_startup)]
    pub fn is_startup(self) -> (b: bool)
        ensures
            b == self.spec_is_startup(),
    {
        match self {
            InternalState::Start
            | InternalState::StartPartRead
            | InternalState::StartStatusRead
            | InternalState::StartTurningOff
            | InternalState::StartCtrl1Set
            | InternalState::StartCcaSet
            | InternalState::StartPwrSet
            | InternalState::StartCtrl2Set
            | InternalState::StartIrqmaskSet
            | InternalState::StartXah1Set
            | InternalState::StartXah0Set
            | InternalState::StartPanid0Set
            | InternalState::StartPanid1Set
            | InternalState::StartIeee0Set
            | InternalState::StartIeee1Set
            | InternalState::StartIeee2Set
            | InternalState::StartIeee3Set
            | InternalState::StartIeee4Set
            | InternalState::StartIeee5Set
            | InternalState::StartIeee6Set
            | InternalState::StartIeee7Set
            | InternalState::StartShort0Set
            | InternalState::StartShort1Set
            | InternalState::StartCsmaSeeded
            | InternalState::StartRpcSet
            | InternalState::OnStatusRead
            | InternalState::OnPllWaiting
            | InternalState::OnPllSet => true,
            _ => false,
        }
    }

    /// The states of a transmission, the deferred one among them.
    pub open spec fn is_transmit(self) -> bool {
        match self {
            InternalState::TxStatusPrecheck1
            | InternalState::TxWritingFrame
            | InternalState::TxStatusPrecheck2
            | InternalState::TxPllStart
            | InternalState::TxPllWait
            | InternalState::TxAretOn
            | InternalState::TxTransmitting
            | InternalState::TxDone
            | InternalState::TxReturnToRx
            | InternalState::TxPending => true,
            _ => false,
        }
    }

    /// The states in which a new short address or PAN id is on its way to
    /// the chip.
    pub open spec fn spec_is_config(self) -> bool {
        self == InternalState::ConfigShort0Set || self == InternalState::ConfigPan0Set
    }

    #[verifier::when_used_as_spec(spec_is_config)]
    pub fn is_config(self) -> (b: bool)
        ensures
            b == self.spec_is_config(),
    {
        match self {
            InternalState::ConfigShort0Set | InternalState::ConfigPan0Set => true,
            _ => false,
        }
    }

    /// The states of a reception: the wait for the end of a frame that has
    /// started, and the read-out of the frame.
    pub open spec fn spec_is_receive(self) -> bool {
        match self {
            InternalState::Rx
            | InternalState::RxReading
            | InternalState::RxLenRead
            | InternalState::RxRead => true,
            _ => false,
        }
    }

    #[verifier::when_used_as_spec(spec_is_receive)]
    pub fn is_receive(self) -> (b: bool)
        ensures
            b == self.spec_is_receive(),
    {
        match self {
            InternalState::Rx
            | InternalState::RxReading
            | InternalState::RxLenRead
            | InternalState::RxRead => true,
            _ => false,
        }
    }
}

} // verus!
