use rf233::driver::RF233;
use rf233::outcome::{
    BusConfig, ClockPhase, ClockPolarity, Outcome, Pin, PinAction, ReturnCode,
};
use rf233::state::InternalState;

fn wire(radio: &RF233, out: &Outcome) -> Option<(u8, u8, usize)> {
    out.exchange.map(|len| (radio.write_buffer()[0], radio.write_buffer()[1], len))
}

fn idle_ready_radio() -> RF233 {
    let mut radio = RF233::new();
    radio.start();
    while radio.bus_is_busy() {
        radio.read_write_done(&[0x08, 0x00]);
    }
    radio.fired(0);
    radio.read_write_done(&[0x08, 0x01]);
    assert_eq!(radio.state(), InternalState::Ready);
    radio.read_write_done(&[0x06, 0x00]);
    radio
}

fn reset_pins() -> Vec<PinAction> {
    vec![
        PinAction::MakeOutput(Pin::Reset),
        PinAction::MakeOutput(Pin::Sleep),
        PinAction::HoldLow(Pin::Reset, 10000),
        PinAction::SetHigh(Pin::Reset),
        PinAction::SetLow(Pin::Sleep),
    ]
}

#[test]
fn new_driver_is_in_its_initial_state() {
    let radio = RF233::new();
    assert_eq!(radio.state(), InternalState::Start);
    assert_eq!(radio.address(), 0);
    assert_eq!(radio.pan(), 0);
    assert!(!radio.is_on());
    assert!(!radio.bus_is_busy());
    assert!(!radio.interrupt_is_pending());
    assert!(!radio.is_transmitting());
    assert!(!radio.is_receiving());
    assert_eq!(*radio.read_buffer(), [0u8; 129]);
    assert_eq!(*radio.write_buffer(), [0u8; 129]);
}

#[test]
fn reset_drives_the_reset_line_then_the_sleep_line() {
    let mut radio = RF233::new();
    let out = radio.reset();
    assert_eq!(out, Outcome { pins: reset_pins(), ..Outcome::quiet(ReturnCode::Success) });
    assert!(radio.is_on());
    assert_eq!(radio.state(), InternalState::Start);
    assert!(!radio.bus_is_busy());
}

#[test]
fn initialize_sets_the_bus_clock_and_resets() {
    let mut radio = RF233::new();
    let out = radio.initialize();
    assert_eq!(
        out,
        Outcome {
            bus_config: Some(BusConfig {
                polarity: ClockPolarity::IdleLow,
                phase: ClockPhase::SampleLeading,
                rate: 100000,
            }),
            pins: reset_pins(),
            ..Outcome::quiet(ReturnCode::Success)
        }
    );
    assert!(radio.is_on());
    assert_eq!(radio.state(), InternalState::Start);
}

#[test]
fn reset_clears_the_transmitting_flag() {
    let mut radio = idle_ready_radio();
    radio.transmit(1, vec![0; 12], 12);
    assert!(radio.is_transmitting());
    radio.reset();
    assert!(!radio.is_transmitting());
    // The buffer is still held, so the next request is refused.
    assert_eq!(radio.transmit(1, vec![0; 12], 12), Outcome::quiet(ReturnCode::Busy));
}

#[test]
fn stop_is_unsupported() {
    let radio = RF233::new();
    assert_eq!(radio.stop(), ReturnCode::Unsupported);
    let radio = idle_ready_radio();
    assert_eq!(radio.stop(), ReturnCode::Unsupported);
}

#[test]
fn header_takes_ten_bytes() {
    let radio = RF233::new();
    assert_eq!(radio.header_size(), 10);
    assert_eq!(radio.payload_offset(), 10);
}

#[test]
fn configuration_before_startup_is_only_kept() {
    let mut radio = RF233::new();
    assert_eq!(radio.set_pan(0x1234), Outcome::quiet(ReturnCode::Success));
    assert_eq!(radio.set_address(0xBEEF), Outcome::quiet(ReturnCode::Success));
    assert_eq!(radio.pan(), 0x1234);
    assert_eq!(radio.address(), 0xBEEF);
    assert_eq!(radio.state(), InternalState::Start);
    assert!(!radio.bus_is_busy());
    assert_eq!(*radio.write_buffer(), [0u8; 129]);
}

#[test]
fn set_address_in_ready_writes_low_byte_then_high_byte() {
    let mut radio = idle_ready_radio();
    let out = radio.set_address(0xBEEF);
    assert_eq!(out, Outcome { exchange: Some(2), ..Outcome::quiet(ReturnCode::Success) });
    assert_eq!(wire(&radio, &out), Some((0xE0, 0xEF, 2)));
    assert_eq!(radio.state(), InternalState::ConfigShort0Set);
    assert_eq!(radio.address(), 0xBEEF);

    let out = radio.read_write_done(&[0x06, 0x00]);
    assert_eq!(out, Outcome { exchange: Some(2), ..Outcome::quiet(ReturnCode::Success) });
    assert_eq!(wire(&radio, &out), Some((0xE1, 0xBE, 2)));
    assert_eq!(radio.state(), InternalState::Ready);

    let out = radio.read_write_done(&[0x06, 0x00]);
    assert_eq!(out, Outcome::quiet(ReturnCode::Success));
    assert_eq!(radio.state(), InternalState::Ready);
    assert!(!radio.bus_is_busy());
}

#[test]
fn set_pan_in_ready_writes_low_byte_then_high_byte() {
    let mut radio = idle_ready_radio();
    let out = radio.set_pan(0x1234);
    assert_eq!(out, Outcome { exchange: Some(2), ..Outcome::quiet(ReturnCode::Success) });
    assert_eq!(wire(&radio, &out), Some((0xE2, 0x34, 2)));
    assert_eq!(radio.state(), InternalState::ConfigPan0Set);
    assert_eq!(radio.pan(), 0x1234);

    let out = radio.read_write_done(&[0x06, 0x00]);
    assert_eq!(out, Outcome { exchange: Some(2), ..Outcome::quiet(ReturnCode::Success) });
    assert_eq!(wire(&radio, &out), Some((0xE3, 0x12, 2)));
    assert_eq!(radio.state(), InternalState::Ready);
}

#[test]
fn configuration_is_refused_outside_ready_and_start() {
    let mut radio = RF233::new();
    radio.start();
    radio.read_write_done(&[0x08, 0x00]);
    assert_eq!(radio.state(), InternalState::StartPartRead);
    assert_eq!(radio.set_pan(0x1234), Outcome::quiet(ReturnCode::Busy));
    assert_eq!(radio.set_address(0x1234), Outcome::quiet(ReturnCode::Busy));
    assert_eq!(radio.pan(), 0);
    assert_eq!(radio.address(), 0);

    let mut radio = idle_ready_radio();
    radio.set_pan(0x1234);
    assert_eq!(radio.set_address(0x5678), Outcome::quiet(ReturnCode::Busy));
    assert_eq!(radio.set_pan(0x5678), Outcome::quiet(ReturnCode::Busy));
    assert_eq!(radio.pan(), 0x1234);
    assert_eq!(radio.address(), 0);

    let mut radio = idle_ready_radio();
    radio.transmit(1, vec![0; 12], 12);
    assert_eq!(radio.set_address(0x5678), Outcome::quiet(ReturnCode::Busy));
    assert_eq!(radio.address(), 0);
}

#[test]
fn configuration_in_ready_with_the_bus_busy_is_refused() {
    let mut radio = idle_ready_radio();
    radio.set_pan(0x0101);
    radio.read_write_done(&[0x06, 0x00]);
    radio.read_write_done(&[0x06, 0x00]);
    radio.fired(0);
    assert!(radio.bus_is_busy());
    let before = *radio.write_buffer();

    assert_eq!(radio.set_pan(0x1234), Outcome::quiet(ReturnCode::Busy));
    assert_eq!(radio.set_address(0xBEEF), Outcome::quiet(ReturnCode::Busy));
    assert_eq!(radio.pan(), 0x0101);
    assert_eq!(radio.address(), 0);
    assert_eq!(radio.state(), InternalState::Ready);
    assert_eq!(*radio.write_buffer(), before);

    // The outstanding completion is still taken as the interrupt status.
    let out = radio.read_write_done(&[0x16, 0x04]);
    assert_eq!(out, Outcome::quiet(ReturnCode::Success));
    assert_eq!(radio.state(), InternalState::Rx);

    // With the bus idle again the change goes through, both bytes.
    let mut radio = idle_ready_radio();
    radio.fired(0);
    assert_eq!(radio.set_pan(0x1234), Outcome::quiet(ReturnCode::Busy));
    radio.read_write_done(&[0x06, 0x00]);
    let out = radio.set_pan(0x1234);
    assert_eq!(wire(&radio, &out), Some((0xE2, 0x34, 2)));
    let out = radio.read_write_done(&[0x06, 0x00]);
    assert_eq!(wire(&radio, &out), Some((0xE3, 0x12, 2)));
    assert_eq!(radio.state(), InternalState::Ready);
}

#[test]
fn configuration_before_startup_is_kept_with_the_bus_busy() {
    let mut radio = RF233::new();
    radio.start();
    assert!(radio.bus_is_busy());
    assert_eq!(radio.state(), InternalState::Start);
    assert_eq!(radio.set_pan(0x1234), Outcome::quiet(ReturnCode::Success));
    assert_eq!(radio.pan(), 0x1234);
}

#[test]
fn outcomes_are_built_field_by_field() {
    let out = Outcome::quiet(ReturnCode::Busy);
    assert_eq!(out.code, ReturnCode::Busy);
    assert_eq!(out.bus_config, None);
    assert!(out.pins.is_empty());
    assert_eq!(out.exchange, None);
    assert_eq!(out.send_done, None);
    assert_eq!(out.receive, None);

    let out = Outcome::bus(21);
    assert_eq!(out.code, ReturnCode::Success);
    assert_eq!(out.exchange, Some(21));
    assert_eq!(out, Outcome { exchange: Some(21), ..Outcome::quiet(ReturnCode::Success) });

    assert_eq!(Outcome::step(Some(2)), Outcome::bus(2));
    assert_eq!(Outcome::step(None), Outcome::quiet(ReturnCode::Success));
}

#[test]
fn accepts_transmit_tells_what_transmit_will_do() {
    let mut radio = RF233::new();
    assert!(!radio.accepts_transmit());
    let mut radio2 = idle_ready_radio();
    assert!(radio2.accepts_transmit());
    radio2.transmit(1, vec![0; 12], 12);
    assert!(!radio2.accepts_transmit());
    radio.start();
    assert!(!radio.accepts_transmit());

    // A change of address or PAN id on its way does not stand against it.
    let mut radio3 = idle_ready_radio();
    radio3.set_pan(0x1234);
    assert_eq!(radio3.state(), InternalState::ConfigPan0Set);
    assert!(radio3.accepts_transmit());
    assert_eq!(radio3.transmit(1, vec![0; 12], 12).code, ReturnCode::Success);
    assert!(!radio3.accepts_transmit());
}
