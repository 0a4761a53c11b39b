//! A digital output device: one GPIO pin driven through a polarity.
use crate::polarity::{logical_to_state, state_to_logical, toggled_state, Polarity};
use vstd::prelude::*;

verus! {

#[verifier::external_type_specification]
#[verifier::external_body]
pub struct ExGpio(rppal::gpio::Gpio);

#[verifier::external_type_specification]
#[verifier::external_body]
pub struct ExPin(rppal::gpio::Pin);

#[verifier::external_type_specification]
#[verifier::external_body]
pub struct ExIoPin(rppal::gpio::IoPin);

#[verifier::external_type_specification]
#[verifier::external_body]
pub struct ExGpioError(rppal::gpio::Error);

#[verifier::external_type_specification]
pub struct ExLevel(rppal::gpio::Level);

#[verifier::external_type_specification]
pub struct ExMode(rppal::gpio::Mode);

/// Relies on rppal's `Gpio::new`: access to the GPIO peripheral, or the
/// reason it cannot be had on this machine.
pub assume_specification[ rppal::gpio::Gpio::new ]() -> (r: Result<
    rppal::gpio::Gpio,
    rppal::gpio::Error,
>);

/// Relies on rppal's `Gpio::get`: claims the pin with the given number, or
/// fails when it does not exist or is already claimed.
pub assume_specification[ rppal::gpio::Gpio::get ](gpio: &rppal::gpio::Gpio, pin: u8) -> (r:
    Result<rppal::gpio::Pin, rppal::gpio::Error>);

/// Relies on rppal's `Pin::into_io`: puts the pin in the given mode.
pub assume_specification[ rppal::gpio::Pin::into_io ](
    pin: rppal::gpio::Pin,
    mode: rppal::gpio::Mode,
) -> (r: rppal::gpio::IoPin);

/// Relies on rppal's `IoPin::set_high`: drives the pin high.
pub assume_specification[ rppal::gpio::IoPin::set_high ](pin: &mut rppal::gpio::IoPin);

/// Relies on rppal's `IoPin::set_low`: drives the pin low.
pub assume_specification[ rppal::gpio::IoPin::set_low ](pin: &mut rppal::gpio::IoPin);

/// Relies on rppal's `IoPin::read`: the level on the pin now, which the
/// hardware decides.
pub assume_specification[ rppal::gpio::IoPin::read ](pin: &rppal::gpio::IoPin) -> (r:
    rppal::gpio::Level);

/// Why a device could not be set up.
pub enum DeviceError {
    /// The GPIO peripheral or the pin could not be claimed.
    Gpio(rppal::gpio::Error),
}

/// What a device is, as far as its contracts go: its polarity, the number
/// of its pin, and the levels (`true` for high) that it has driven onto the
/// pin, oldest first.
pub struct DeviceView {
    pub active_high: bool,
    pub pin: u8,
    pub driven: Seq<bool>,
}

/// The device after it drives `state` onto its pin.
pub open spec fn after_write(v: DeviceView, state: bool) -> DeviceView {
    DeviceView { driven: v.driven.push(state), ..v }
}

/// The device after `on`.
pub open spec fn after_on(v: DeviceView) -> DeviceView {
    after_write(v, logical_to_state(v.active_high, true))
}

/// The device after `off`.
pub open spec fn after_off(v: DeviceView) -> DeviceView {
    after_write(v, logical_to_state(v.active_high, false))
}

/// The device after `set_active_high(value)`: the pin is not touched.
pub open spec fn after_set_active_high(v: DeviceView, value: bool) -> DeviceView {
    DeviceView { active_high: value, ..v }
}

/// A generic GPIO output device.
pub struct OutputDeviceR {
    pin: rppal::gpio::IoPin,
    number: u8,
    polarity: Polarity,
    driven: Ghost<Seq<bool>>,
}

impl View for OutputDeviceR {
    type V = DeviceView;

    closed spec fn view(&self) -> DeviceView {
        DeviceView { active_high: self.polarity@, pin: self.number, driven: self.driven@ }
    }
}

impl OutputDeviceR {
    /// Claims GPIO pin `pin`, puts it in output mode and makes the device
    /// active-high. Fails when the pin cannot be claimed.
    pub fn new(pin: u8) -> (r: Result<OutputDeviceR, DeviceError>)
        ensures
            r is Ok ==> r->Ok_0@ == (DeviceView { active_high: true, pin, driven: Seq::empty() }),
    {
        let gpio = match rppal::gpio::Gpio::new() {
            Ok(gpio) => gpio,
            Err(e) => {
                return Err(DeviceError::Gpio(e));
            },
        };
        match gpio.get(pin) {
            Ok(p) => Ok(OutputDeviceR {
                pin: p.into_io(rppal::gpio::Mode::Output),
                number: pin,
                polarity: Polarity::new(),
                driven: Ghost(Seq::empty()),
            }),
            Err(e) => Err(DeviceError::Gpio(e)),
        }
    }

    /// Sets whether logical `true` is a high level. The pin is not touched,
    /// so the level on it now reads as the opposite value.
    pub fn set_active_high(&mut self, value: bool)
        ensures
            final(self)@ == after_set_active_high(old(self)@, value),
    {
        self.polarity.set_active_high(value);
    }

    /// Whether logical `true` is a high level.
    pub fn active_high(&self) -> (r: bool)
        ensures
            r == self@.active_high,
    {
        self.polarity.active_high()
    }

    /// The physical level that stands for the logical `value`.
    pub fn value_to_state(&self, value: bool) -> (r: bool)
        ensures
            r == logical_to_state(self@.active_high, value),
    {
        self.polarity.value_to_state(value)
    }

    /// The logical value that the physical level `state` stands for.
    pub fn state_to_value(&self, state: bool) -> (r: bool)
        ensures
            r == state_to_logical(self@.active_high, state),
    {
        self.polarity.state_to_value(state)
    }

    /// Drives `state` (`true` for high) onto the pin.
    fn drive(&mut self, state: bool)
        ensures
            final(self)@ == after_write(old(self)@, state),
    {
        if state {
            self.pin.set_high();
        } else {
            self.pin.set_low();
        }
        self.driven = Ghost(self.driven@.push(state));
    }

    /// Drives the level that stands for the logical `value`.
    fn write_state(&mut self, value: bool)
        ensures
            final(self)@ == after_write(old(self)@, logical_to_state(old(self)@.active_high, value)),
    {
        let state = self.value_to_state(value);
        self.drive(state);
    }

    /// Turns the device on.
    pub fn on(&mut self)
        ensures
            final(self)@ == after_on(old(self)@),
    {
        self.write_state(true)
    }

    /// Turns the device off.
    pub fn off(&mut self)
        ensures
            final(self)@ == after_off(old(self)@),
    {
        self.write_state(false)
    }

    /// Drives the pin low, whatever the polarity.
    pub fn force_low(&mut self)
        ensures
            final(self)@ == after_write(old(self)@, false),
    {
        self.drive(false)
    }

    /// The level on the pin now, `true` for high, as the hardware reports it.
    pub fn read_level(&self) -> bool {
        match self.pin.read() {
            rppal::gpio::Level::Low => false,
            rppal::gpio::Level::High => true,
        }
    }

    /// Reverses a device on whose pin the level `state` was read: turns it
    /// off if that level stands for on, else on. The level driven is the
    /// opposite of `state`, and stands for the opposite value.
    pub fn toggle_from(&mut self, state: bool)
        ensures
            final(self)@ == after_write(old(self)@, toggled_state(old(self)@.active_high, state)),
            final(self)@ == after_write(old(self)@, !state),
            state_to_logical(final(self)@.active_high, final(self)@.driven.last())
                == !state_to_logical(old(self)@.active_high, state),
    {
        if self.state_to_value(state) {
            self.off();
        } else {
            self.on();
        }
    }

    /// Reverses the device: reads the level on its pin and drives the
    /// opposite one, so that it turns off if it read as on, else on.
    pub fn toggle(&mut self)
        ensures
            exists|state: bool|
                final(self)@ == after_write(old(self)@, !state) && state_to_logical(
                    final(self)@.active_high,
                    final(self)@.driven.last(),
                ) == !state_to_logical(old(self)@.active_high, state),
    {
        let state = self.read_level();
        self.toggle_from(state);
    }

    /// Whether the device is active: the level on the pin read through the
    /// polarity.
    pub fn value(&self) -> bool {
        let state = self.read_level();
        self.state_to_value(state)
    }

    /// Same as `value`.
    pub fn is_active(&self) -> bool {
        self.value()
    }

    /// The number of the GPIO pin the device is attached to.
    pub fn pin(&self) -> (r: u8)
        ensures
            r == self@.pin,
    {
        self.number
    }
}

/// Turning a device on a second time drives the same level as the first
/// time and leaves its polarity as it was; the same holds of turning it off.
pub proof fn lemma_on_off_idempotent(v: DeviceView)
    ensures
        after_on(after_on(v)).driven.last() == after_on(v).driven.last(),
        after_on(after_on(v)).active_high == after_on(v).active_high,
        after_off(after_off(v)).driven.last() == after_off(v).driven.last(),
        after_off(after_off(v)).active_high == after_off(v).active_high,
{
}

/// Setting active-high, then active-low, then active-high again gives the
/// same device as setting active-high once, and never touches the pin.
pub proof fn lemma_active_high_round_trip(v: DeviceView)
    ensures
        after_set_active_high(
            after_set_active_high(after_set_active_high(v, true), false),
            true,
        ) == after_set_active_high(v, true),
        after_set_active_high(
            after_set_active_high(after_set_active_high(v, true), false),
            true,
        ).driven == v.driven,
        v.active_high ==> after_set_active_high(
            after_set_active_high(after_set_active_high(v, true), false),
            true,
        ) == v,
{
}

/// On an active-high device, `on` drives high, which reads as on; turning
/// the device active-low then leaves the pin high, which now reads as off;
/// `on` again drives low, which reads as on.
pub proof fn lemma_on_then_active_low_then_on(v: DeviceView)
    requires
        v.active_high,
    ensures
        after_on(v).driven.last() == true,
        state_to_logical(after_on(v).active_high, after_on(v).driven.last()),
        after_set_active_high(after_on(v), false).driven == after_on(v).driven,
        !state_to_logical(false, after_set_active_high(after_on(v), false).driven.last()),
        after_on(after_set_active_high(after_on(v), false)).driven.last() == false,
        state_to_logical(
            after_on(after_set_active_high(after_on(v), false)).active_high,
            after_on(after_set_active_high(after_on(v), false)).driven.last(),
        ),
{
}

} // verus!
