//! One standard controller: eight buttons behind a shift register.
use vstd::prelude::*;

verus! {

/// The buttons, in the order in which the controller reports them.
#[derive(Clone, Copy, Debug, PartialEq, Eq, Structural)]
pub enum JoypadButton {
    ButtonA,
    ButtonB,
    Select,
    Start,
    Up,
    Down,
    Left,
    Right,
}

impl JoypadButton {
    /// The bit of the button in the controller's status byte.
    pub open spec fn spec_mask(self) -> u8 {
        match self {
            JoypadButton::ButtonA => 0x01,
            JoypadButton::ButtonB => 0x02,
            JoypadButton::Select => 0x04,
            JoypadButton::Start => 0x08,
            JoypadButton::Up => 0x10,
            JoypadButton::Down => 0x20,
            JoypadButton::Left => 0x40,
            JoypadButton::Right => 0x80,
        }
    }

    #[verifier::when_used_as_spec(spec_mask)]
    pub fn mask(self) -> (m: u8)
        ensures
            m == self.spec_mask(),
    {
        match self {
            JoypadButton::ButtonA => 0x01,
            JoypadButton::ButtonB => 0x02,
            JoypadButton::Select => 0x04,
            JoypadButton::Start => 0x08,
            JoypadButton::Up => 0x10,
            JoypadButton::Down => 0x20,
            JoypadButton::Left => 0x40,
            JoypadButton::Right => 0x80,
        }
    }
}

/// A controller. While `strobe` is on, the controller keeps reloading its
/// shift register and reports button A; once it is off, each read reports
/// the next button.
#[derive(Clone, Copy, Debug, PartialEq, Eq, Structural)]
pub struct Joypad {
    pub strobe: bool,
    pub button_index: u8,
    pub button_status: u8,
}

impl Joypad {
    /// A controller with no button pressed, strobe off.
    pub open spec fn idle() -> Joypad {
        Joypad { strobe: false, button_index: 0, button_status: 0 }
    }

    /// The controller after the processor wrote `data` to its port: bit 0
    /// is the strobe, and a strobe that is on rewinds to button A.
    pub open spec fn after_write(self, data: u8) -> Joypad {
        let strobe = data & 1 == 1;
        Joypad {
            strobe,
            button_index: if strobe {
                0
            } else {
                self.button_index
            },
            ..self
        }
    }

    /// What a read of the port returns: button A while the strobe is on,
    /// else the button at `button_index`, and 1 once all eight were read.
    pub open spec fn read_value(self) -> u8 {
        if self.strobe {
            self.button_status & 1
        } else if self.button_index > 7 {
            1
        } else {
            (self.button_status >> self.button_index) & 1
        }
    }

    /// The controller after a read: with the strobe off the next button is
    /// up, until all eight were read.
    pub open spec fn after_read(self) -> Joypad {
        if !self.strobe && self.button_index <= 7 {
            Joypad { button_index: (self.button_index + 1) as u8, ..self }
        } else {
            self
        }
    }

    /// The controller with `button` held down or released.
    pub open spec fn with_button(self, button: JoypadButton, pressed: bool) -> Joypad {
        Joypad {
            button_status: if pressed {
                self.button_status | button.spec_mask()
            } else {
                self.button_status & !button.spec_mask()
            },
            ..self
        }
    }

    pub fn new() -> (joypad: Joypad)
        ensures
            joypad == Joypad::idle(),
    {
        Joypad { strobe: false, button_index: 0, button_status: 0 }
    }

    /// The processor writes `data` to the controller's port.
    pub fn write(&mut self, data: u8)
        ensures
            *final(self) == old(self).after_write(data),
    {
        self.strobe = data & 1 == 1;
        if self.strobe {
            self.button_index = 0;
        }
    }

    /// The processor reads the controller's port.
    pub fn read(&mut self) -> (data: u8)
        ensures
            data == old(self).read_value(),
            *final(self) == old(self).after_read(),
    {
        if self.strobe {
            return self.button_status & 1;
        }
        if self.button_index > 7 {
            return 1;
        }
        let response: u8 = (self.button_status >> self.button_index) & 1;
        self.button_index = self.button_index + 1;
        response
    }

    /// What a read of the port would return, without reading it.
    pub fn peek(&self) -> (data: u8)
        ensures
            data == self.read_value(),
    {
        if self.strobe {
            self.button_status & 1
        } else if self.button_index > 7 {
            1
        } else {
            (self.button_status >> self.button_index) & 1
        }
    }

    /// The host reports that `button` went down or up.
    pub fn set_button_pressed_status(&mut self, button: JoypadButton, pressed: bool)
        ensures
            *final(self) == old(self).with_button(button, pressed),
    {
        if pressed {
            self.button_status = self.button_status | button.mask();
        } else {
            self.button_status = self.button_status & !button.mask();
        }
    }
}

} // verus!
