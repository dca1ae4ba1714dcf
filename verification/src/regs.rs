//! Register map, bus opcodes, mode codes and interrupt causes of the
//! transceiver, together with the settings this driver programs at startup.

use vstd::prelude::*;

verus! {

/// The registers the driver touches, named as in the chip's data sheet.
#[derive(Clone, Copy, PartialEq, Eq, Structural, Debug)]
pub enum RF233Register {
    TrxStatus,
    TrxState,
    TrxCtrl1,
    PhyTxPwr,
    PhyCcCca,
    TrxCtrl2,
    IrqMask,
    IrqStatus,
    TrxRpc,
    XahCtrl1,
    PartNum,
    ShortAddr0,
    ShortAddr1,
    PanId0,
    PanId1,
    IeeeAddr0,
    IeeeAddr1,
    IeeeAddr2,
    IeeeAddr3,
    IeeeAddr4,
    IeeeAddr5,
    IeeeAddr6,
    IeeeAddr7,
    XahCtrl0,
    CsmaSeed0,
}

impl RF233Register {
    /// Address of the register in the chip's six-bit register space.
    pub open spec fn spec_addr(self) -> u8 {
        match self {
            RF233Register::TrxStatus => 0x01,
            RF233Register::TrxState => 0x02,
            RF233Register::TrxCtrl1 => 0x04,
            RF233Register::PhyTxPwr => 0x05,
            RF233Register::PhyCcCca => 0x08,
            RF233Register::TrxCtrl2 => 0x0C,
            RF233Register::IrqMask => 0x0E,
            RF233Register::IrqStatus => 0x0F,
            RF233Register::TrxRpc => 0x16,
            RF233Register::XahCtrl1 => 0x17,
            RF233Register::PartNum => 0x1C,
            RF233Register::ShortAddr0 => 0x20,
            RF233Register::ShortAddr1 => 0x21,
            RF233Register::PanId0 => 0x22,
            RF233Register::PanId1 => 0x23,
            RF233Register::IeeeAddr0 => 0x24,
            RF233Register::IeeeAddr1 => 0x25,
            RF233Register::IeeeAddr2 => 0x26,
            RF233Register::IeeeAddr3 => 0x27,
            RF233Register::IeeeAddr4 => 0x28,
            RF233Register::IeeeAddr5 => 0x29,
            RF233Register::IeeeAddr6 => 0x2A,
            RF233Register::IeeeAddr7 => 0x2B,
            RF233Register::XahCtrl0 => 0x2C,
            RF233Register::CsmaSeed0 => 0x2D,
        }
    }

    #[verifier::when_used_as_spec(spec_addr)]
    pub fn addr(self) -> (a: u8)
        ensures
            a == self.spec_addr(),
            a < 0x40,
    {
        match self {
            RF233Register::TrxStatus => 0x01,
            RF233Register::TrxState => 0x02,
            RF233Register::TrxCtrl1 => 0x04,
            RF233Register::PhyTxPwr => 0x05,
            RF233Register::PhyCcCca => 0x08,
            RF233Register::TrxCtrl2 => 0x0C,
            RF233Register::IrqMask => 0x0E,
            RF233Register::IrqStatus => 0x0F,
            RF233Register::TrxRpc => 0x16,
            RF233Register::XahCtrl1 => 0x17,
            RF233Register::PartNum => 0x1C,
            RF233Register::ShortAddr0 => 0x20,
            RF233Register::ShortAddr1 => 0x21,
            RF233Register::PanId0 => 0x22,
            RF233Register::PanId1 => 0x23,
            RF233Register::IeeeAddr0 => 0x24,
            RF233Register::IeeeAddr1 => 0x25,
            RF233Register::IeeeAddr2 => 0x26,
            RF233Register::IeeeAddr3 => 0x27,
            RF233Register::IeeeAddr4 => 0x28,
            RF233Register::IeeeAddr5 => 0x29,
            RF233Register::IeeeAddr6 => 0x2A,
            RF233Register::IeeeAddr7 => 0x2B,
            RF233Register::XahCtrl0 => 0x2C,
            RF233Register::CsmaSeed0 => 0x2D,
        }
    }
}

/// Opcode of a register read; the register address fills the low six bits.
pub const REGISTER_READ: u8 = 0x80;

/// Opcode of a register write; the register address fills the low six bits.
pub const REGISTER_WRITE: u8 = 0xC0;

/// Opcode of a frame buffer read.
pub const FRAME_READ: u8 = 0x20;

/// Opcode of a frame buffer write.
pub const FRAME_WRITE: u8 = 0x60;

/// Mode commands written to `TrxState`.
pub const CMD_TX_START: u8 = 0x02;

pub const CMD_RX_ON: u8 = 0x06;

pub const CMD_OFF: u8 = 0x08;

pub const CMD_PLL_ON: u8 = 0x09;

pub const CMD_TX_ARET_ON: u8 = 0x19;

/// Mode codes the chip reports in its status byte.
pub const STATUS_ON: u8 = 0x00;

pub const STATUS_BUSY_RX: u8 = 0x01;

pub const STATUS_RX_ON: u8 = 0x06;

pub const STATUS_PLL_ON: u8 = 0x09;

pub const STATUS_BUSY_RX_AACK: u8 = 0x11;

pub const STATUS_BUSY_TX_ARET: u8 = 0x12;

pub const STATUS_TRANSITION_IN_PROGRESS: u8 = 0x1F;

/// The five low bits of the status byte carry the mode code.
pub const STATUS_MASK: u8 = 0x1F;

/// Cause bits of the interrupt status register.
pub const IRQ_0_PLL_LOCK: u8 = 0x01;

pub const IRQ_2_RX_START: u8 = 0x04;

pub const IRQ_3_TRX_END: u8 = 0x08;

/// `TrxCtrl1`: drive the front-end indicator pins, append the CRC in
/// hardware, and answer the first byte of every exchange with the mode code.
pub const TRX_CTRL_1: u8 = 0xA4;

/// `PhyCcCca`: channel 26, clear-channel assessment by carrier sense or
/// energy.
pub const PHY_CC_CCA: u8 = 0x1A;

/// `PhyTxPwr`: full output power.
pub const PHY_TX_PWR: u8 = 0x00;

/// `TrxCtrl2`: protect the frame buffer while a received frame is read out,
/// 250 kb/s.
pub const TRX_CTRL_2: u8 = 0x80;

/// `IrqMask`: buffer access violation, frame end, frame start, PLL lock.
pub const IRQ_MASK: u8 = 0x4D;

/// `XahCtrl1`: no address filtering.
pub const XAH_CTRL_1: u8 = 0x02;

/// `XahCtrl0`: three frame retries, four CSMA retries, unslotted.
pub const XAH_CTRL_0: u8 = 0x38;

/// The eight bytes of the hardware address, lowest register first.
pub const IEEE_ADDR_0: u8 = 0x11;

pub const IEEE_ADDR_1: u8 = 0x22;

pub const IEEE_ADDR_2: u8 = 0x33;

pub const IEEE_ADDR_3: u8 = 0x44;

pub const IEEE_ADDR_4: u8 = 0x55;

pub const IEEE_ADDR_5: u8 = 0x66;

pub const IEEE_ADDR_6: u8 = 0x77;

pub const IEEE_ADDR_7: u8 = 0x88;

/// Seed of the CSMA back-off generator.
pub const CSMA_SEED: u8 = 0x33;

/// `TrxRpc`: all reduced-power modes on.
pub const TRX_RPC: u8 = 0xFF;

/// Whether every bit of `mask` is set in `byte`.
pub open spec fn spec_has_bits(byte: u8, mask: u8) -> bool {
    byte & mask == mask
}

#[verifier::when_used_as_spec(spec_has_bits)]
pub fn has_bits(byte: u8, mask: u8) -> (b: bool)
    ensures
        b == spec_has_bits(byte, mask),
{
    byte & mask == mask
}

/// The mode code in a status byte.
pub open spec fn spec_mode_code(status: u8) -> u8 {
    status & STATUS_MASK
}

#[verifier::when_used_as_spec(spec_mode_code)]
pub fn mode_code(status: u8) -> (code: u8)
    ensures
        code == spec_mode_code(status),
{
    status & STATUS_MASK
}

/// Whether a status byte shows the chip itself in the middle of a frame:
/// receiving one, or sending one through the retry engine.
pub open spec fn spec_chip_is_busy(status: u8) -> bool {
    let code = spec_mode_code(status);
    code == STATUS_BUSY_RX_AACK || code == STATUS_BUSY_TX_ARET || code == STATUS_BUSY_RX
}

#[verifier::when_used_as_spec(spec_chip_is_busy)]
pub fn chip_is_busy(status: u8) -> (b: bool)
    ensures
        b == spec_chip_is_busy(status),
{
    let code: u8 = mode_code(status);
    code == STATUS_BUSY_RX_AACK || code == STATUS_BUSY_TX_ARET || code == STATUS_BUSY_RX
}

/// The command byte of a register read.
pub open spec fn spec_read_command(reg: RF233Register) -> u8 {
    reg.spec_addr() | REGISTER_READ
}

#[verifier::when_used_as_spec(spec_read_command)]
pub fn read_command(reg: RF233Register) -> (c: u8)
    ensures
        c == spec_read_command(reg),
{
    reg.addr() | REGISTER_READ
}

/// The command byte of a register write.
pub open spec fn spec_write_command(reg: RF233Register) -> u8 {
    reg.spec_addr() | REGISTER_WRITE
}

#[verifier::when_used_as_spec(spec_write_command)]
pub fn write_command(reg: RF233Register) -> (c: u8)
    ensures
        c == spec_write_command(reg),
{
    reg.addr() | REGISTER_WRITE
}

/// A command byte keeps the register address in its low six bits and tells
/// reads from writes in the two bits above them.
pub proof fn lemma_command_encoding(reg: RF233Register)
    ensures
        spec_read_command(reg) & 0x3F == reg.spec_addr(),
        spec_write_command(reg) & 0x3F == reg.spec_addr(),
        spec_read_command(reg) & 0xC0 == REGISTER_READ,
        spec_write_command(reg) & 0xC0 == REGISTER_WRITE,
{
    let a: u8 = reg.spec_addr();
    assert(a < 0x40);
    assert((a | 0x80u8) & 0x3F == a && (a | 0xC0u8) & 0x3F == a && (a | 0x80u8) & 0xC0 == 0x80u8
        && (a | 0xC0u8) & 0xC0 == 0xC0u8) by (bit_vector)
        requires
            a < 0x40,
    ;
}

} // verus!
