use rf233::driver::RF233;
use rf233::outcome::{Outcome, ReturnCode};
use rf233::state::InternalState;

fn wire(radio: &RF233, out: &Outcome) -> Option<(u8, u8, usize)> {
    out.exchange.map(|len| (radio.write_buffer()[0], radio.write_buffer()[1], len))
}

fn idle_ready_radio() -> RF233 {
    let mut radio = RF233::new();
    radio.set_pan(0x1234);
    radio.set_address(0x0A0B);
    radio.start();
    while radio.bus_is_busy() {
        radio.read_write_done(&[0x08, 0x00]);
    }
    radio.fired(0);
    radio.read_write_done(&[0x08, 0x01]);
    assert_eq!(radio.state(), InternalState::Ready);
    radio.read_write_done(&[0x06, 0x00]);
    radio
}

fn packet(len: usize) -> Vec<u8> {
    (0..len).map(|i| 0x80 + i as u8).collect()
}

/// Takes an accepted request up to the point where the frame is on the air.
fn send_until_on_air(radio: &mut RF233) {
    radio.read_write_done(&[0x06, 0x00]);
    radio.read_write_done(&[0x06; 16]);
    radio.read_write_done(&[0x06, 0x00]);
    radio.read_write_done(&[0x06, 0x00]);
    radio.read_write_done(&[0x09, 0x00]);
    radio.read_write_done(&[0x09, 0x00]);
    assert_eq!(radio.state(), InternalState::TxTransmitting);
    radio.read_write_done(&[0x19, 0x00]);
    assert!(!radio.bus_is_busy());
}

#[test]
fn transmit_before_startup_is_refused() {
    let mut radio = RF233::new();
    assert_eq!(radio.transmit(0xBEEF, packet(15), 15), Outcome::quiet(ReturnCode::NotStarted));
    assert_eq!(radio.state(), InternalState::Start);
    assert!(!radio.is_transmitting());
    assert!(!radio.bus_is_busy());
    assert_eq!(*radio.write_buffer(), [0u8; 129]);
}

#[test]
fn transmit_before_startup_takes_any_buffer() {
    let mut radio = RF233::new();
    assert_eq!(radio.transmit(0xBEEF, vec![], 255), Outcome::quiet(ReturnCode::NotStarted));
}

#[test]
fn transmit_during_startup_is_refused() {
    let mut radio = RF233::new();
    radio.start();
    for _ in 0..10 {
        radio.read_write_done(&[0x08, 0x00]);
        let state = radio.state();
        let before = *radio.write_buffer();
        assert_eq!(radio.transmit(0xBEEF, packet(15), 15), Outcome::quiet(ReturnCode::NotStarted));
        assert_eq!(radio.state(), state);
        assert_eq!(*radio.write_buffer(), before);
    }
}

#[test]
fn accepted_transmit_reads_the_status_first() {
    let mut radio = idle_ready_radio();
    let out = radio.transmit(0xBEEF, packet(15), 15);
    assert_eq!(out, Outcome::bus(2));
    assert_eq!(wire(&radio, &out), Some((0x81, 0x00, 2)));
    assert_eq!(radio.state(), InternalState::TxStatusPrecheck1);
    assert!(radio.is_transmitting());
}

#[test]
fn second_transmit_is_busy_and_does_nothing() {
    let mut radio = idle_ready_radio();
    assert_eq!(radio.transmit(0xBEEF, packet(15), 15).code, ReturnCode::Success);
    let before = *radio.write_buffer();

    for _ in 0..3 {
        assert_eq!(radio.transmit(0xCAFE, packet(20), 20), Outcome::quiet(ReturnCode::Busy));
        assert_eq!(radio.state(), InternalState::TxStatusPrecheck1);
        assert_eq!(*radio.write_buffer(), before);
    }

    // The frame that goes out is the one of the first request.
    let out = radio.read_write_done(&[0x06, 0x00]);
    assert_eq!(out, Outcome::bus(16));
    assert_eq!(radio.write_buffer()[7], 0xEF);
    assert_eq!(radio.write_buffer()[8], 0xBE);
}

#[test]
fn transmit_stays_busy_until_the_buffer_is_back() {
    let mut radio = idle_ready_radio();
    radio.transmit(0xBEEF, packet(15), 15);
    radio.read_write_done(&[0x06, 0x00]);
    assert_eq!(radio.transmit(1, packet(15), 15), Outcome::quiet(ReturnCode::Busy));
    radio.read_write_done(&[0x06; 16]);
    assert_eq!(radio.transmit(1, packet(15), 15), Outcome::quiet(ReturnCode::Busy));
    radio.read_write_done(&[0x06, 0x00]);
    radio.read_write_done(&[0x06, 0x00]);
    radio.read_write_done(&[0x09, 0x00]);
    radio.read_write_done(&[0x09, 0x00]);
    radio.read_write_done(&[0x19, 0x00]);
    assert_eq!(radio.transmit(1, packet(15), 15), Outcome::quiet(ReturnCode::Busy));
    radio.fired(0);
    radio.read_write_done(&[0x19, 0x08]);
    assert_eq!(radio.transmit(1, packet(15), 15), Outcome::quiet(ReturnCode::Busy));
    let out = radio.read_write_done(&[0x06, 0x00]);
    assert!(out.send_done.is_some());
    // The buffer is back: the next request is accepted.
    assert_eq!(radio.transmit(1, packet(15), 15).code, ReturnCode::Success);
}

#[test]
fn transmission_runs_from_precheck_to_send_done() {
    let mut radio = idle_ready_radio();
    let payload = packet(15);
    let mut frame = payload.clone();
    frame[..10].copy_from_slice(&[16, 0x61, 0xAA, 0, 0x34, 0x12, 0xEF, 0xBE, 0x0B, 0x0A]);

    let out = radio.transmit(0xBEEF, payload, 15);
    assert_eq!(wire(&radio, &out), Some((0x81, 0x00, 2)));

    // The chip is idle: the frame goes into its buffer.
    let out = radio.read_write_done(&[0x06, 0x00]);
    assert_eq!(out, Outcome::bus(16));
    assert_eq!(radio.state(), InternalState::TxWritingFrame);
    assert_eq!(radio.write_buffer()[0], 0x60);
    assert_eq!(&radio.write_buffer()[1..16], &frame[..]);

    let out = radio.read_write_done(&[0x06; 16]);
    assert_eq!(out, Outcome::bus(2));
    assert_eq!(wire(&radio, &out), Some((0x81, 0x00, 2)));
    assert_eq!(radio.state(), InternalState::TxStatusPrecheck2);

    let out = radio.read_write_done(&[0x06, 0x00]);
    assert_eq!(wire(&radio, &out), Some((0xC2, 0x09, 2)));
    assert_eq!(radio.state(), InternalState::TxPllStart);

    let out = radio.read_write_done(&[0x06, 0x00]);
    assert_eq!(wire(&radio, &out), Some((0x81, 0x00, 2)));
    assert_eq!(radio.state(), InternalState::TxPllWait);

    let out = radio.read_write_done(&[0x09, 0x00]);
    assert_eq!(wire(&radio, &out), Some((0xC2, 0x19, 2)));
    assert_eq!(radio.state(), InternalState::TxAretOn);

    let out = radio.read_write_done(&[0x09, 0x00]);
    assert_eq!(wire(&radio, &out), Some((0xC2, 0x02, 2)));
    assert_eq!(radio.state(), InternalState::TxTransmitting);

    // The frame is on the air; nothing happens until the chip says so.
    let out = radio.read_write_done(&[0x19, 0x00]);
    assert_eq!(out, Outcome::quiet(ReturnCode::Success));
    assert_eq!(radio.state(), InternalState::TxTransmitting);

    let out = radio.fired(0);
    assert_eq!(wire(&radio, &out), Some((0x8F, 0x00, 2)));

    let out = radio.read_write_done(&[0x19, 0x08]);
    assert_eq!(wire(&radio, &out), Some((0xC2, 0x06, 2)));
    assert_eq!(radio.state(), InternalState::TxReturnToRx);
    assert_eq!(out.send_done, None);

    let out = radio.read_write_done(&[0x06, 0x00]);
    assert_eq!(
        out,
        Outcome { exchange: Some(2), send_done: Some(frame), ..Outcome::quiet(ReturnCode::Success) }
    );
    assert_eq!(wire(&radio, &out), Some((0x81, 0x00, 2)));
    assert_eq!(radio.state(), InternalState::Ready);
    assert!(!radio.is_transmitting());

    let out = radio.read_write_done(&[0x06, 0x00]);
    assert_eq!(out, Outcome::quiet(ReturnCode::Success));
    assert_eq!(radio.state(), InternalState::Ready);
}

#[test]
fn sequence_number_moves_on_with_every_frame() {
    let mut radio = idle_ready_radio();
    for expected in 0..3u8 {
        radio.transmit(0xBEEF, packet(15), 15);
        radio.read_write_done(&[0x06, 0x00]);
        assert_eq!(radio.write_buffer()[4], expected);
        radio.read_write_done(&[0x06; 16]);
        radio.read_write_done(&[0x06, 0x00]);
        radio.read_write_done(&[0x06, 0x00]);
        radio.read_write_done(&[0x09, 0x00]);
        radio.read_write_done(&[0x09, 0x00]);
        radio.read_write_done(&[0x19, 0x00]);
        radio.fired(0);
        radio.read_write_done(&[0x19, 0x08]);
        let out = radio.read_write_done(&[0x06, 0x00]);
        assert_eq!(out.send_done.unwrap()[3], expected);
        radio.read_write_done(&[0x06, 0x00]);
    }
}

#[test]
fn precheck_defers_while_the_chip_receives() {
    for status in [0x01u8, 0x11, 0x12, 0xF1] {
        let mut radio = idle_ready_radio();
        radio.transmit(0xBEEF, packet(15), 15);
        let out = radio.read_write_done(&[status, 0x00]);
        assert_eq!(out, Outcome::quiet(ReturnCode::Success));
        assert_eq!(radio.state(), InternalState::TxPending);
        assert!(!radio.bus_is_busy());

        // Completions do not lead out of the state.
        radio.register_read(rf233::regs::RF233Register::TrxStatus);
        let out = radio.read_write_done(&[0x06, 0x00]);
        assert_eq!(out, Outcome::quiet(ReturnCode::Success));
        assert_eq!(radio.state(), InternalState::TxPending);
    }
}

#[test]
fn frame_start_leads_out_of_the_deferred_state() {
    let mut radio = idle_ready_radio();
    radio.transmit(0xBEEF, packet(15), 15);
    radio.read_write_done(&[0x01, 0x00]);
    assert_eq!(radio.state(), InternalState::TxPending);

    radio.fired(0);
    let out = radio.read_write_done(&[0x01, 0x04]);
    assert_eq!(out, Outcome::quiet(ReturnCode::Success));
    assert_eq!(radio.state(), InternalState::Rx);
    assert!(radio.is_receiving());
    assert!(radio.is_transmitting());
}

#[test]
fn second_precheck_turns_to_reception() {
    let mut radio = idle_ready_radio();
    radio.transmit(0xBEEF, packet(15), 15);
    radio.read_write_done(&[0x06, 0x00]);
    radio.read_write_done(&[0x06; 16]);
    assert_eq!(radio.state(), InternalState::TxStatusPrecheck2);
    let out = radio.read_write_done(&[0x11, 0x00]);
    assert_eq!(out, Outcome::quiet(ReturnCode::Success));
    assert_eq!(radio.state(), InternalState::Rx);
    assert!(radio.is_receiving());
}

#[test]
fn pll_wait_reads_again_while_the_chip_changes_mode() {
    let mut radio = idle_ready_radio();
    radio.transmit(0xBEEF, packet(15), 15);
    radio.read_write_done(&[0x06, 0x00]);
    radio.read_write_done(&[0x06; 16]);
    radio.read_write_done(&[0x06, 0x00]);
    radio.read_write_done(&[0x06, 0x00]);
    assert_eq!(radio.state(), InternalState::TxPllWait);

    for _ in 0..3 {
        let out = radio.read_write_done(&[0x1F, 0x00]);
        assert_eq!(wire(&radio, &out), Some((0x81, 0x00, 2)));
        assert_eq!(radio.state(), InternalState::TxPllWait);
    }
    // Some other mode: the command is given again.
    let out = radio.read_write_done(&[0x06, 0x00]);
    assert_eq!(wire(&radio, &out), Some((0xC2, 0x09, 2)));
    assert_eq!(radio.state(), InternalState::TxPllWait);

    let out = radio.read_write_done(&[0xE9, 0x00]);
    assert_eq!(wire(&radio, &out), Some((0xC2, 0x19, 2)));
    assert_eq!(radio.state(), InternalState::TxAretOn);
}

#[test]
fn return_to_rx_reads_the_status_until_the_chip_listens() {
    let mut radio = idle_ready_radio();
    radio.transmit(0xBEEF, packet(15), 15);
    send_until_on_air(&mut radio);
    radio.fired(0);
    radio.read_write_done(&[0x19, 0x08]);
    assert_eq!(radio.state(), InternalState::TxReturnToRx);

    for status in [0x12u8, 0x1F, 0x86] {
        let out = radio.read_write_done(&[status, 0x00]);
        assert_eq!(out, Outcome::bus(2));
        assert_eq!(wire(&radio, &out), Some((0x81, 0x00, 2)));
        assert_eq!(radio.state(), InternalState::TxReturnToRx);
        assert!(radio.is_transmitting());
    }
    let out = radio.read_write_done(&[0x06, 0x00]);
    assert!(out.send_done.is_some());
    assert_eq!(radio.state(), InternalState::Ready);
}

#[test]
fn frame_end_without_a_frame_on_the_air_changes_nothing() {
    let mut radio = idle_ready_radio();
    radio.fired(0);
    let out = radio.read_write_done(&[0x06, 0x08]);
    assert_eq!(out, Outcome::quiet(ReturnCode::Success));
    assert_eq!(radio.state(), InternalState::Ready);
}

#[test]
fn transmit_in_ready_with_the_bus_busy_uses_the_status_that_comes() {
    let mut radio = idle_ready_radio();
    radio.fired(0);
    let before = *radio.write_buffer();
    assert!(radio.accepts_transmit());
    let out = radio.transmit(0xBEEF, packet(15), 15);
    assert_eq!(out, Outcome::quiet(ReturnCode::Success));
    assert_eq!(radio.state(), InternalState::TxStatusPrecheck1);
    assert_eq!(*radio.write_buffer(), before);

    // The interrupt status arrives, with no cause set; its status byte
    // serves the precheck, and the whole frame goes out.
    let out = radio.read_write_done(&[0x06, 0x00]);
    assert_eq!(out, Outcome::bus(16));
    assert_eq!(radio.state(), InternalState::TxWritingFrame);
    assert_eq!(radio.write_buffer()[0], 0x60);
    assert_eq!(radio.write_buffer()[1], 16);
    assert_eq!(radio.write_buffer()[7], 0xEF);
}

#[test]
fn transmit_from_within_send_done_is_accepted() {
    let mut radio = idle_ready_radio();
    radio.transmit(0xBEEF, packet(15), 15);
    send_until_on_air(&mut radio);
    radio.fired(0);
    radio.read_write_done(&[0x19, 0x08]);
    let out = radio.read_write_done(&[0x06, 0x00]);
    assert!(out.send_done.is_some());
    assert!(radio.bus_is_busy());

    // The status read that follows the transmission is still outstanding.
    let out = radio.transmit(0xCAFE, packet(15), 15);
    assert_eq!(out, Outcome::quiet(ReturnCode::Success));
    let out = radio.read_write_done(&[0x06, 0x00]);
    assert_eq!(out, Outcome::bus(16));
    assert_eq!(radio.write_buffer()[7], 0xFE);
    assert_eq!(radio.write_buffer()[8], 0xCA);
}

#[test]
fn transmit_during_an_address_change_waits_for_the_high_byte() {
    let mut radio = idle_ready_radio();
    let out = radio.set_address(0xBEEF);
    assert_eq!(wire(&radio, &out), Some((0xE0, 0xEF, 2)));
    assert_eq!(radio.state(), InternalState::ConfigShort0Set);

    // The request is accepted and waits: nothing moves.
    let before = *radio.write_buffer();
    assert!(radio.accepts_transmit());
    let out = radio.transmit(0xCAFE, packet(15), 15);
    assert_eq!(out, Outcome::quiet(ReturnCode::Success));
    assert_eq!(radio.state(), InternalState::ConfigShort0Set);
    assert_eq!(*radio.write_buffer(), before);
    assert!(radio.is_transmitting());
    assert!(radio.bus_is_busy());
    assert_eq!(radio.address(), 0xBEEF);

    // A further request is refused while this one waits.
    assert!(!radio.accepts_transmit());
    assert_eq!(radio.transmit(1, packet(15), 15), Outcome::quiet(ReturnCode::Busy));

    // The change completes: the high byte goes out, and with it the
    // driver enters the precheck, not Ready.
    let out = radio.read_write_done(&[0x06, 0x00]);
    assert_eq!(out, Outcome::bus(2));
    assert_eq!(wire(&radio, &out), Some((0xE1, 0xBE, 2)));
    assert_eq!(radio.state(), InternalState::TxStatusPrecheck1);

    // The status that the write brings serves the precheck: the frame
    // goes out, with the new address as its source.
    let out = radio.read_write_done(&[0x06, 0x00]);
    assert_eq!(out, Outcome::bus(16));
    assert_eq!(radio.state(), InternalState::TxWritingFrame);
    assert_eq!(radio.write_buffer()[0], 0x60);
    assert_eq!(radio.write_buffer()[7], 0xFE);
    assert_eq!(radio.write_buffer()[8], 0xCA);
    assert_eq!(radio.write_buffer()[9], 0xEF);
    assert_eq!(radio.write_buffer()[10], 0xBE);
}

#[test]
fn transmit_during_a_pan_change_waits_for_the_high_byte() {
    let mut radio = idle_ready_radio();
    radio.set_pan(0x4321);
    assert_eq!(radio.state(), InternalState::ConfigPan0Set);
    let out = radio.transmit(0xCAFE, packet(15), 15);
    assert_eq!(out, Outcome::quiet(ReturnCode::Success));
    assert_eq!(radio.state(), InternalState::ConfigPan0Set);

    let out = radio.read_write_done(&[0x06, 0x00]);
    assert_eq!(wire(&radio, &out), Some((0xE3, 0x43, 2)));
    assert_eq!(radio.state(), InternalState::TxStatusPrecheck1);

    // The chip is receiving: the transmission waits for the frame start.
    let out = radio.read_write_done(&[0x01, 0x00]);
    assert_eq!(out, Outcome::quiet(ReturnCode::Success));
    assert_eq!(radio.state(), InternalState::TxPending);
}

#[test]
fn transmit_after_a_received_frame_and_an_address_change_is_accepted() {
    let mut radio = idle_ready_radio();
    radio.fired(0);
    radio.read_write_done(&[0x16, 0x0C]);
    radio.read_write_done(&[0x16, 3]);
    let out = radio.read_write_done(&[0x16, 3, 0xAA, 0xBB]);
    assert_eq!(out.receive, Some(3));
    radio.read_write_done(&[0x06, 0x00]);
    assert_eq!(radio.state(), InternalState::Ready);

    radio.set_address(0x1234);
    let out = radio.transmit(0xBEEF, packet(15), 15);
    assert_eq!(out.code, ReturnCode::Success);
    assert!(radio.is_transmitting());
}

#[test]
fn address_change_without_a_request_returns_to_ready() {
    let mut radio = idle_ready_radio();
    radio.set_address(0xBEEF);
    let out = radio.read_write_done(&[0x06, 0x00]);
    assert_eq!(wire(&radio, &out), Some((0xE1, 0xBE, 2)));
    assert_eq!(radio.state(), InternalState::Ready);
}

#[test]
fn header_is_written_into_the_transmit_buffer() {
    let mut radio = idle_ready_radio();
    radio.transmit(0xBEEF, packet(40), 40);
    let out = radio.read_write_done(&[0x06, 0x00]);
    assert_eq!(out, Outcome::bus(41));
    let sent = radio.write_buffer();
    assert_eq!(sent[1], 41);
    assert_eq!(sent[2], 0x61);
    assert_eq!(sent[3], 0xAA);
    assert_eq!(sent[4], 0);
    assert_eq!(sent[5] as u16 | (sent[6] as u16) << 8, 0x1234);
    assert_eq!(sent[7] as u16 | (sent[8] as u16) << 8, 0xBEEF);
    assert_eq!(sent[9] as u16 | (sent[10] as u16) << 8, 0x0A0B);
    assert_eq!(&sent[11..41], &packet(40)[10..]);
}
