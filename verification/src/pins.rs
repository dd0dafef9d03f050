//! Digital pins, and the board's indicators and button built on them.

use vstd::prelude::*;
use crate::fault::Fault;

verus! {

/// A push-pull output. Its view is `true` while it drives high.
#[derive(Debug)]
pub struct OutputPin {
    high: bool,
}

impl View for OutputPin {
    type V = bool;

    closed spec fn view(&self) -> bool {
        self.high
    }
}

impl OutputPin {
    /// An output at reset: driving low.
    pub fn new() -> (pin: OutputPin)
        ensures
            !pin@,
    {
        OutputPin { high: false }
    }

    pub fn set_high(&mut self)
        ensures
            final(self)@,
    {
        self.high = true;
    }

    pub fn set_low(&mut self)
        ensures
            !final(self)@,
    {
        self.high = false;
    }

    pub fn toggle(&mut self)
        ensures
            final(self)@ == !old(self)@,
    {
        self.high = !self.high;
    }

    pub fn is_set_high(&self) -> (high: bool)
        ensures
            high == self@,
    {
        self.high
    }
}

/// A floating input. Its view is the level it reads.
#[derive(Debug)]
pub struct InputPin {
    high: bool,
}

impl View for InputPin {
    type V = bool;

    closed spec fn view(&self) -> bool {
        self.high
    }
}

impl InputPin {
    /// An input that reads `high`.
    pub fn new(high: bool) -> (pin: InputPin)
        ensures
            pin@ == high,
    {
        InputPin { high }
    }

    pub fn is_high(&self) -> (high: bool)
        ensures
            high == self@,
    {
        self.high
    }

    pub fn is_low(&self) -> (low: bool)
        ensures
            low == !self@,
    {
        !self.high
    }
}

/// An indicator. Its view is `true` while it is lit.
#[derive(Debug)]
pub struct Led {
    pin: OutputPin,
}

impl View for Led {
    type V = bool;

    closed spec fn view(&self) -> bool {
        self.pin@
    }
}

impl Led {
    /// An indicator on `pin`; it shows what the pin drives.
    pub fn new(pin: OutputPin) -> (led: Led)
        ensures
            led@ == pin@,
    {
        Led { pin }
    }

    pub fn on(&mut self)
        ensures
            final(self)@,
    {
        self.pin.set_high();
    }

    pub fn off(&mut self)
        ensures
            !final(self)@,
    {
        self.pin.set_low();
    }

    pub fn toggle(&mut self)
        ensures
            final(self)@ == !old(self)@,
    {
        self.pin.toggle();
    }

    pub fn is_on(&self) -> (lit: bool)
        ensures
            lit == self@,
    {
        self.pin.is_set_high()
    }
}

/// A push button that reads high while it is held down. Its view is
/// `true` while it is pressed.
#[derive(Debug)]
pub struct Button {
    pin: InputPin,
}

impl View for Button {
    type V = bool;

    closed spec fn view(&self) -> bool {
        self.pin@
    }
}

impl Button {
    pub fn new(pin: InputPin) -> (button: Button)
        ensures
            button@ == pin@,
    {
        Button { pin }
    }

    pub fn pressed(&self) -> (pressed: bool)
        ensures
            pressed == self@,
    {
        self.pin.is_high()
    }
}

/// The device's peripheral set, which can be taken once. Its view is
/// `true` while it is still there to take.
#[derive(Debug)]
pub struct Peripherals {
    available: bool,
}

impl View for Peripherals {
    type V = bool;

    closed spec fn view(&self) -> bool {
        self.available
    }
}

impl Peripherals {
    /// The peripheral set at reset: not taken.
    pub fn new() -> (peripherals: Peripherals)
        ensures
            peripherals@,
    {
        Peripherals { available: true }
    }

    /// Takes the set. This succeeds once.
    pub fn take(&mut self) -> (result: Result<(), Fault>)
        ensures
            !final(self)@,
            result == if old(self)@ {
                Ok::<(), Fault>(())
            } else {
                Err::<(), Fault>(Fault::PeripheralsTaken)
            },
    {
        if self.available {
            self.available = false;
            Ok(())
        } else {
            Err(Fault::PeripheralsTaken)
        }
    }
}

/// The board: three indicators and a button.
#[derive(Debug)]
pub struct Board {
    pub led1: Led,
    pub led2: Led,
    pub led3: Led,
    pub button: Button,
}

impl Board {
    /// Takes the peripheral set and builds the board from it: all
    /// indicators dark, the button released. A set that was taken before
    /// gives no board.
    pub fn new(peripherals: &mut Peripherals) -> (result: Result<Board, Fault>)
        ensures
            !final(peripherals)@,
            old(peripherals)@ ==> result is Ok && {
                let board = result->Ok_0;
                !board.led1@ && !board.led2@ && !board.led3@ && !board.button@
            },
            !old(peripherals)@ ==> result is Err && result->Err_0 == Fault::PeripheralsTaken,
    {
        match peripherals.take() {
            Ok(()) => {
                let button = Button::new(InputPin::new(false));
                let led1 = Led::new(OutputPin::new());
                let led2 = Led::new(OutputPin::new());
                let led3 = Led::new(OutputPin::new());
                Ok(Board { led1, led2, led3, button })
            },
            Err(fault) => Err(fault),
        }
    }
}

} // verus!
