//! A polarity-aware digital output device on a GPIO pin, and the decisions
//! of its background blink loop.
pub mod polarity;
pub mod output_device;
pub mod blink;

pub use blink::{BlinkAction, BlinkPhase, BlinkTask};
pub use output_device::{DeviceError, OutputDeviceR};
pub use polarity::Polarity;
