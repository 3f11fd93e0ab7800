//! Drives WS2812-family "smart" addressable LEDs by translating color values
//! into the pulse sequences understood by a self-clocked single-wire protocol.
//!
//! Color values are encoded into a fixed-capacity buffer of pulse
//! descriptors, which is then handed to a hardware peripheral capable of
//! generating precisely timed two-level pulses. All buffer capacity is
//! determined ahead of time from the number of LEDs and the color format, so
//! the driver works without dynamic allocation beyond the single buffer made
//! at construction.

pub mod color;
pub mod driver;
pub mod encode;
pub mod graphics;
pub mod error;
pub mod color_order;
pub mod pulse;
pub mod timing;

pub use color::CctWhite8;
pub use color::Color;
pub use color::Rgb16;
pub use color::Rgb8;
pub use color::Rgbcct8;
pub use color::Rgbw8;
pub use color::White8;
pub use color_order::ColorOrder;
pub use driver::buffer_size;
pub use driver::RmtSmartLeds;
pub use graphics::RmtSmartLedsGraphics;
pub use error::AdapterError;
pub use error::TransmitFault;
pub use pulse::PulseCode;
pub use timing::Sk68xxTiming;
pub use timing::Timing;
pub use timing::TimingNanos;
pub use timing::Ws2811LowSpeedTiming;
pub use timing::Ws2811Timing;
pub use timing::Ws2812Timing;
pub use timing::Ws2812bTiming;
