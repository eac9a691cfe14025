use onewire_hal::digital::v1;
use onewire_hal::digital::v2;

struct OldOutputPinImpl {
    state: bool,
}

impl v1::OutputPin for OldOutputPinImpl {
    fn pin_state(&self) -> bool {
        self.state
    }
    fn set_low(&mut self) {
        self.state = false;
    }
    fn set_high(&mut self) {
        self.state = true;
    }
}

struct NewOutputPinConsumer<T: v2::OutputPin> {
    _pin: T,
}

impl<T> NewOutputPinConsumer<T>
where
    T: v2::OutputPin,
{
    pub fn new(pin: T) -> NewOutputPinConsumer<T> {
        NewOutputPinConsumer { _pin: pin }
    }
}

#[test]
fn v2_v1_output_implicit() {
    let i = OldOutputPinImpl { state: false };
    let _c = NewOutputPinConsumer::new(i);
}

#[test]
fn v2_v1_output_state() {
    let mut o = OldOutputPinImpl { state: false };

    v2::OutputPin::set_high(&mut o).unwrap();
    assert_eq!(o.state, true);

    v2::OutputPin::set_low(&mut o).unwrap();
    assert_eq!(o.state, false);
}

struct OldInputPinImpl {
    state: bool,
}

impl v1::InputPin for OldInputPinImpl {
    fn pin_state(&self) -> bool {
        self.state
    }
    fn is_low(&self) -> bool {
        !self.state
    }
    fn is_high(&self) -> bool {
        self.state
    }
}

struct NewInputPinConsumer<T: v2::InputPin> {
    _pin: T,
}

impl<T> NewInputPinConsumer<T>
where
    T: v2::InputPin,
{
    pub fn new(pin: T) -> NewInputPinConsumer<T> {
        NewInputPinConsumer { _pin: pin }
    }
}

#[test]
fn v2_v1_input_implicit() {
    let i = OldInputPinImpl { state: false };
    let _c = NewInputPinConsumer::new(i);
}

#[test]
fn v2_v1_input_state() {
    let mut i = OldInputPinImpl { state: false };

    assert_eq!(v2::InputPin::is_high(&mut i).unwrap(), false);
    assert_eq!(v2::InputPin::is_low(&mut i).unwrap(), true);
}
