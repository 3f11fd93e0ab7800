//! Tests for the transmit lifecycle: the channel is handed out for exactly
//! one transmission and always comes back, on success and on failure.

use esp_hal_smartled::driver::buffer_size;
use esp_hal_smartled::driver::RmtSmartLeds;
use esp_hal_smartled::color::Rgb8;
use esp_hal_smartled::color_order::Grb;
use esp_hal_smartled::error::AdapterError;
use esp_hal_smartled::error::TransmitFault;
use esp_hal_smartled::pulse::PulseCode;
use esp_hal_smartled::timing::Ws2812Timing;

/// A stand-in for the hardware transmit channel that records how many
/// submissions were attempted and whether the next one fails.
#[derive(Debug, PartialEq, Eq)]
struct StubChannel {
    submissions: u32,
    fail_next: bool,
}

impl StubChannel {
    fn new() -> StubChannel {
        StubChannel { submissions: 0, fail_next: false }
    }

    /// Pretend to transmit the buffer, as the peripheral collaborator
    /// would, reporting a fault when armed to do so.
    fn submit(&mut self, _buffer: &[PulseCode]) -> Result<(), TransmitFault> {
        self.submissions += 1;
        if self.fail_next {
            self.fail_next = false;
            Err(TransmitFault { code: 7 })
        } else {
            Ok(())
        }
    }
}

type Driver = RmtSmartLeds<StubChannel, Rgb8, Grb, Ws2812Timing>;

/// Drive one full write the way an embedding would: encode, then hand the
/// channel out, submit, and hand it back.
fn write(led: &mut Driver, colors: &Vec<Rgb8>) -> Result<(), AdapterError> {
    led.create_rmt_data(colors)?;
    assert!(led.owns_channel());
    let mut ch = led.begin_transmit();
    let outcome = ch.submit(led.buffer());
    led.finish_transmit(ch, outcome)
}

fn make_driver(leds: usize) -> Driver {
    Driver::new(StubChannel::new(), 80, buffer_size::<Rgb8>(leds))
}

#[test]
fn write_then_write_succeeds_channel_is_reusable() {
    let mut led = make_driver(2);
    let colors = vec![Rgb8 { r: 1, g: 2, b: 3 }, Rgb8 { r: 9, g: 8, b: 7 }];
    assert!(write(&mut led, &colors).is_ok());
    assert!(led.owns_channel());
    assert!(write(&mut led, &colors).is_ok());
    assert!(led.owns_channel());
}

#[test]
fn failed_transmission_returns_the_fault_and_restores_the_channel() {
    let mut led = make_driver(1);
    let colors = vec![Rgb8 { r: 1, g: 2, b: 3 }];
    assert!(led.create_rmt_data(&colors).is_ok());
    let mut ch = led.begin_transmit();
    ch.fail_next = true;
    let outcome = ch.submit(led.buffer());
    let r = led.finish_transmit(ch, outcome);
    assert_eq!(
        r,
        Err(AdapterError::TransmissionError(TransmitFault { code: 7 }))
    );
    // The channel came back even though the hardware failed...
    assert!(led.owns_channel());
    // ...so a subsequent write can be attempted, and succeeds.
    assert!(write(&mut led, &colors).is_ok());
}

#[test]
fn oversized_write_fails_before_any_submission_is_attempted() {
    let mut led = make_driver(1);
    let colors = vec![
        Rgb8 { r: 1, g: 2, b: 3 },
        Rgb8 { r: 4, g: 5, b: 6 },
        Rgb8 { r: 7, g: 8, b: 9 },
    ];
    assert_eq!(write(&mut led, &colors), Err(AdapterError::BufferSizeExceeded));
    assert!(led.owns_channel());
    let ch = led.begin_transmit();
    assert_eq!(ch.submissions, 0);
    assert!(led.finish_transmit(ch, Ok(())).is_ok());
}

#[test]
fn transmission_fault_wraps_via_from() {
    let fault = TransmitFault { code: 3 };
    assert_eq!(
        AdapterError::from(fault),
        AdapterError::TransmissionError(TransmitFault { code: 3 })
    );
}
