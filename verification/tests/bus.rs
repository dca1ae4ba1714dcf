use rf233::driver::RF233;
use rf233::outcome::{Outcome, ReturnCode};
use rf233::regs::{read_command, write_command, RF233Register};
use rf233::state::InternalState;

/// A driver that has gone through startup and has nothing on the bus.
fn idle_ready_radio() -> RF233 {
    let mut radio = RF233::new();
    radio.start();
    while radio.bus_is_busy() {
        radio.read_write_done(&[0x08, 0x00]);
    }
    assert_eq!(radio.state(), InternalState::OnPllWaiting);
    radio.fired(0);
    radio.read_write_done(&[0x08, 0x01]);
    assert_eq!(radio.state(), InternalState::Ready);
    radio.read_write_done(&[0x06, 0x00]);
    assert!(!radio.bus_is_busy());
    radio
}

#[test]
fn register_write_encodes_command_and_value() {
    let mut radio = RF233::new();
    let out = radio.register_write(RF233Register::TrxState, 0x09);
    assert_eq!(out.code, ReturnCode::Success);
    assert_eq!(out.exchange, Some(2));
    assert_eq!(radio.write_buffer()[0], 0xC2);
    assert_eq!(radio.write_buffer()[1], 0x09);
    assert!(radio.bus_is_busy());
}

#[test]
fn register_read_encodes_command_and_zero() {
    let mut radio = idle_ready_radio();
    radio.register_write(RF233Register::TrxState, 0x77);
    radio.read_write_done(&[0x06, 0x00]);
    let out = radio.register_read(RF233Register::IrqStatus);
    assert_eq!(out.code, ReturnCode::Success);
    assert_eq!(out.exchange, Some(2));
    assert_eq!(radio.write_buffer()[0], 0x8F);
    assert_eq!(radio.write_buffer()[1], 0x00);
    assert!(radio.bus_is_busy());
}

#[test]
fn register_addresses_follow_the_data_sheet() {
    let table = [
        (RF233Register::TrxStatus, 0x01u8),
        (RF233Register::TrxState, 0x02),
        (RF233Register::TrxCtrl1, 0x04),
        (RF233Register::PhyTxPwr, 0x05),
        (RF233Register::PhyCcCca, 0x08),
        (RF233Register::TrxCtrl2, 0x0C),
        (RF233Register::IrqMask, 0x0E),
        (RF233Register::IrqStatus, 0x0F),
        (RF233Register::TrxRpc, 0x16),
        (RF233Register::XahCtrl1, 0x17),
        (RF233Register::PartNum, 0x1C),
        (RF233Register::ShortAddr0, 0x20),
        (RF233Register::ShortAddr1, 0x21),
        (RF233Register::PanId0, 0x22),
        (RF233Register::PanId1, 0x23),
        (RF233Register::IeeeAddr0, 0x24),
        (RF233Register::IeeeAddr1, 0x25),
        (RF233Register::IeeeAddr2, 0x26),
        (RF233Register::IeeeAddr3, 0x27),
        (RF233Register::IeeeAddr4, 0x28),
        (RF233Register::IeeeAddr5, 0x29),
        (RF233Register::IeeeAddr6, 0x2A),
        (RF233Register::IeeeAddr7, 0x2B),
        (RF233Register::XahCtrl0, 0x2C),
        (RF233Register::CsmaSeed0, 0x2D),
    ];
    for (reg, addr) in table {
        assert_eq!(reg.addr(), addr);
        assert_eq!(read_command(reg), addr | 0x80);
        assert_eq!(write_command(reg), addr | 0xC0);
    }
}

#[test]
fn status_bytes_are_read_by_their_mode_code() {
    assert_eq!(rf233::regs::mode_code(0xE9), 0x09);
    assert!(rf233::regs::chip_is_busy(0x01));
    assert!(rf233::regs::chip_is_busy(0x11));
    assert!(rf233::regs::chip_is_busy(0x12));
    assert!(rf233::regs::chip_is_busy(0x81));
    assert!(!rf233::regs::chip_is_busy(0x02));
    assert!(!rf233::regs::chip_is_busy(0x06));
    assert!(!rf233::regs::chip_is_busy(0x1F));
    assert!(rf233::regs::has_bits(0x0C, 0x04));
    assert!(!rf233::regs::has_bits(0x08, 0x04));
}

#[test]
fn second_exchange_is_refused_and_does_nothing() {
    let mut radio = RF233::new();
    radio.register_write(RF233Register::TrxState, 0x09);
    let before = *radio.write_buffer();

    let busy = Outcome::quiet(ReturnCode::Busy);
    assert_eq!(radio.register_write(RF233Register::IrqMask, 0x4D), busy);
    assert_eq!(radio.register_read(RF233Register::TrxStatus), Outcome::quiet(ReturnCode::Busy));
    assert_eq!(radio.frame_write(&[1, 2, 3], 3), Outcome::quiet(ReturnCode::Busy));
    assert_eq!(radio.frame_read(5), Outcome::quiet(ReturnCode::Busy));
    assert_eq!(*radio.write_buffer(), before);
    assert!(radio.bus_is_busy());
}

#[test]
fn completion_frees_the_bus() {
    let mut radio = idle_ready_radio();
    radio.register_write(RF233Register::TrxState, 0x06);
    assert!(radio.bus_is_busy());
    let out = radio.read_write_done(&[0x06, 0x00]);
    assert_eq!(out, Outcome::quiet(ReturnCode::Success));
    assert!(!radio.bus_is_busy());
    assert_eq!(radio.register_read(RF233Register::TrxStatus).code, ReturnCode::Success);
}

#[test]
fn frame_write_sends_opcode_then_packet() {
    let mut radio = RF233::new();
    let packet: Vec<u8> = (1..=12).collect();
    let out = radio.frame_write(&packet, 12);
    assert_eq!(out.code, ReturnCode::Success);
    assert_eq!(out.exchange, Some(13));
    assert_eq!(radio.write_buffer()[0], 0x60);
    assert_eq!(&radio.write_buffer()[1..13], &packet[..]);
    assert_eq!(radio.write_buffer()[13], 0);
    assert!(radio.bus_is_busy());
}

#[test]
fn frame_write_copies_no_more_than_the_buffer_holds() {
    let mut radio = RF233::new();
    let packet: Vec<u8> = (0..200).map(|i| i as u8).collect();
    let out = radio.frame_write(&packet, 200);
    assert_eq!(out.exchange, Some(201));
    assert_eq!(radio.write_buffer()[0], 0x60);
    assert_eq!(&radio.write_buffer()[1..129], &packet[..128]);
}

#[test]
fn frame_write_takes_the_longest_length() {
    let mut radio = RF233::new();
    let out = radio.frame_write(&[], 255);
    assert_eq!(out.code, ReturnCode::Success);
    assert_eq!(out.exchange, Some(256));
    assert_eq!(radio.write_buffer()[0], 0x60);
    assert_eq!(radio.write_buffer()[1], 0);
}

#[test]
fn frame_read_exchanges_one_byte_more_than_asked() {
    let mut radio = RF233::new();
    let out = radio.frame_read(20);
    assert_eq!(out.code, ReturnCode::Success);
    assert_eq!(out.exchange, Some(21));
    assert_eq!(radio.write_buffer()[0], 0x20);
    assert!(radio.bus_is_busy());
}

#[test]
fn frame_read_clears_the_bytes_behind_the_opcode() {
    let mut radio = idle_ready_radio();
    radio.frame_write(&[0xAA; 128], 128);
    radio.read_write_done(&[0x06]);
    assert!(radio.write_buffer()[1..].iter().all(|b| *b == 0xAA));

    let out = radio.frame_read(5);
    assert_eq!(out.exchange, Some(6));
    assert_eq!(&radio.write_buffer()[..5], &[0x20, 0, 0, 0, 0]);
    assert!(radio.write_buffer()[5..].iter().all(|b| *b == 0xAA));
}

#[test]
fn frame_read_of_one_byte_clears_nothing() {
    let mut radio = idle_ready_radio();
    radio.frame_write(&[0xAA; 128], 128);
    radio.read_write_done(&[0x06]);
    let out = radio.frame_read(1);
    assert_eq!(out.exchange, Some(2));
    assert_eq!(radio.write_buffer()[0], 0x20);
    assert!(radio.write_buffer()[1..].iter().all(|b| *b == 0xAA));
}

#[test]
fn frame_read_of_zero_bytes_exchanges_the_status_only() {
    let mut radio = RF233::new();
    let out = radio.frame_read(0);
    assert_eq!(out.exchange, Some(1));
    assert_eq!(radio.write_buffer()[0], 0x20);
}

#[test]
fn frame_read_of_the_longest_length_stays_in_the_buffer() {
    let mut radio = idle_ready_radio();
    radio.frame_write(&[0xAA; 128], 128);
    radio.read_write_done(&[0x06]);
    let out = radio.frame_read(255);
    assert_eq!(out.code, ReturnCode::Success);
    assert_eq!(out.exchange, Some(256));
    assert_eq!(radio.write_buffer()[0], 0x20);
    assert!(radio.write_buffer()[1..].iter().all(|b| *b == 0));
}

#[test]
fn reply_lands_at_the_front_of_the_read_buffer() {
    let mut radio = idle_ready_radio();
    radio.register_read(RF233Register::TrxStatus);
    radio.read_write_done(&[0x16, 0x42, 0x99]);
    assert_eq!(&radio.read_buffer()[..3], &[0x16, 0x42, 0x99]);
    // A shorter reply leaves what lies behind it.
    radio.register_read(RF233Register::TrxStatus);
    radio.read_write_done(&[0x01]);
    assert_eq!(&radio.read_buffer()[..3], &[0x01, 0x42, 0x99]);
}

#[test]
fn reply_longer_than_the_buffer_is_cut() {
    let mut radio = idle_ready_radio();
    radio.register_read(RF233Register::TrxStatus);
    let long: Vec<u8> = (0..300).map(|i| (i % 251) as u8).collect();
    radio.read_write_done(&long);
    assert_eq!(&radio.read_buffer()[..], &long[..129]);
}
