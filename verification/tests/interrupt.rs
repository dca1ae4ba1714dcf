use rf233::driver::RF233;
use rf233::outcome::{Outcome, ReturnCode};
use rf233::state::InternalState;

fn wire(radio: &RF233, out: &Outcome) -> Option<(u8, u8, usize)> {
    out.exchange.map(|len| (radio.write_buffer()[0], radio.write_buffer()[1], len))
}

fn idle_ready_radio() -> RF233 {
    let mut radio = RF233::new();
    radio.start();
    while radio.bus_is_busy() {
        radio.read_write_done(&[0x08, 0x00]);
    }
    radio.fired(0);
    radio.read_write_done(&[0x08, 0x01]);
    assert_eq!(radio.state(), InternalState::Ready);
    radio.read_write_done(&[0x06, 0x00]);
    radio
}

#[test]
fn edge_with_the_bus_idle_reads_the_interrupt_status() {
    let mut radio = idle_ready_radio();
    let out = radio.fired(0);
    assert_eq!(out, Outcome::bus(2));
    assert_eq!(wire(&radio, &out), Some((0x8F, 0x00, 2)));
    assert!(radio.bus_is_busy());
    assert!(!radio.interrupt_is_pending());
    assert_eq!(radio.state(), InternalState::Ready);
}

#[test]
fn handle_interrupt_is_what_an_edge_does() {
    let mut radio = idle_ready_radio();
    let out = radio.handle_interrupt();
    assert_eq!(out, Outcome::bus(2));
    assert_eq!(wire(&radio, &out), Some((0x8F, 0x00, 2)));
    let out = radio.handle_interrupt();
    assert_eq!(out, Outcome::quiet(ReturnCode::Success));
    assert!(radio.interrupt_is_pending());
}

#[test]
fn edge_with_the_bus_busy_is_only_remembered() {
    let mut radio = idle_ready_radio();
    radio.transmit(0xBEEF, vec![0; 15], 15);
    let before = *radio.write_buffer();
    let out = radio.fired(7);
    assert_eq!(out, Outcome::quiet(ReturnCode::Success));
    assert!(radio.interrupt_is_pending());
    assert_eq!(*radio.write_buffer(), before);
    assert_eq!(radio.state(), InternalState::TxStatusPrecheck1);
}

#[test]
fn frame_start_during_precheck_is_served_before_the_precheck_steps() {
    let mut radio = idle_ready_radio();
    let mut seen = Vec::new();
    let out = radio.transmit(0xBEEF, vec![0; 15], 15);
    seen.push((radio.state(), wire(&radio, &out)));

    // The frame starts while the status read is outstanding.
    let out = radio.fired(0);
    seen.push((radio.state(), wire(&radio, &out)));

    // The status read completes, with a status that would let the frame
    // go out. The interrupt goes first.
    let out = radio.read_write_done(&[0x06, 0x00]);
    seen.push((radio.state(), wire(&radio, &out)));
    assert!(!radio.interrupt_is_pending());
    assert!(radio.bus_is_busy());

    let out = radio.read_write_done(&[0x06, 0x04]);
    seen.push((radio.state(), wire(&radio, &out)));
    assert!(radio.is_receiving());
    assert!(radio.is_transmitting());
    assert!(!radio.bus_is_busy());

    assert_eq!(
        seen,
        vec![
            (InternalState::TxStatusPrecheck1, Some((0x81, 0x00, 2))),
            (InternalState::TxStatusPrecheck1, None),
            (InternalState::TxStatusPrecheck1, Some((0x8F, 0x00, 2))),
            (InternalState::Rx, None),
        ]
    );
}

#[test]
fn precheck_steps_after_an_interrupt_of_no_interest() {
    let mut radio = idle_ready_radio();
    radio.transmit(0xBEEF, vec![0; 15], 15);
    radio.fired(0);
    let out = radio.read_write_done(&[0x01, 0x00]);
    assert_eq!(wire(&radio, &out), Some((0x8F, 0x00, 2)));
    assert_eq!(radio.state(), InternalState::TxStatusPrecheck1);

    // The precheck takes its step now, with the status of this reply.
    let out = radio.read_write_done(&[0x06, 0x00]);
    assert_eq!(out, Outcome::bus(16));
    assert_eq!(radio.write_buffer()[0], 0x60);
    assert_eq!(radio.state(), InternalState::TxWritingFrame);
}

#[test]
fn pending_interrupt_defers_a_startup_step() {
    let mut radio = RF233::new();
    radio.start();
    radio.read_write_done(&[0x08, 0x00]);
    radio.read_write_done(&[0x08, 0x00]);
    assert_eq!(radio.state(), InternalState::StartStatusRead);
    radio.fired(0);

    let out = radio.read_write_done(&[0x08, 0x00]);
    assert_eq!(wire(&radio, &out), Some((0x8F, 0x00, 2)));
    assert_eq!(radio.state(), InternalState::StartStatusRead);

    let out = radio.read_write_done(&[0x08, 0x00]);
    assert_eq!(wire(&radio, &out), Some((0xC4, 0xA4, 2)));
    assert_eq!(radio.state(), InternalState::StartCtrl1Set);
}

#[test]
fn edge_during_the_status_read_of_an_interrupt_reads_again() {
    let mut radio = idle_ready_radio();
    radio.fired(0);
    radio.fired(0);
    assert!(radio.interrupt_is_pending());
    // The first status is passed over: its frame start is not applied.
    let out = radio.read_write_done(&[0x16, 0x04]);
    assert_eq!(wire(&radio, &out), Some((0x8F, 0x00, 2)));
    assert_eq!(radio.state(), InternalState::Ready);
    assert!(!radio.is_receiving());
    assert!(!radio.interrupt_is_pending());

    let out = radio.read_write_done(&[0x16, 0x04]);
    assert_eq!(out, Outcome::quiet(ReturnCode::Success));
    assert_eq!(radio.state(), InternalState::Rx);
    assert!(radio.is_receiving());
}

#[test]
fn edge_before_start_sets_the_startup_off() {
    let mut radio = RF233::new();
    let out = radio.fired(0);
    assert_eq!(wire(&radio, &out), Some((0x8F, 0x00, 2)));
    let out = radio.read_write_done(&[0x00, 0x00]);
    assert_eq!(wire(&radio, &out), Some((0x8F, 0x00, 2)));
    assert_eq!(radio.state(), InternalState::StartPartRead);
}
