use vstd::prelude::*;

verus! {

/// Direction of a pin.
#[derive(PartialEq, Eq, Structural, Clone, Copy, Debug)]
pub enum GPIOMode {
    Read,
    Write,
}

impl GPIOMode {
    /// The text written to the pin's direction file: "in" or "out".
    pub fn direction(&self) -> (r: &'static str)
        ensures
            *self == GPIOMode::Read ==> r@ == "in"@,
            *self == GPIOMode::Write ==> r@ == "out"@,
    {
        match self {
            GPIOMode::Read => "in",
            GPIOMode::Write => "out",
        }
    }

    /// "Read" or "Write".
    pub fn name(&self) -> (r: &'static str)
        ensures
            *self == GPIOMode::Read ==> r@ == "Read"@,
            *self == GPIOMode::Write ==> r@ == "Write"@,
    {
        match self {
            GPIOMode::Read => "Read",
            GPIOMode::Write => "Write",
        }
    }
}

/// Level of a pin.
#[derive(PartialEq, Eq, Structural, Clone, Copy, Debug)]
pub enum GPIOData {
    Low,
    High,
}

/// The level that the first byte of a pin's value file stands for: '0' or '1'.
pub open spec fn level_of(content: Seq<u8>) -> Option<GPIOData> {
    if content.len() > 0 && content[0] == 0x30u8 {
        Some(GPIOData::Low)
    } else if content.len() > 0 && content[0] == 0x31u8 {
        Some(GPIOData::High)
    } else {
        None
    }
}

impl GPIOData {
    /// The text written to a pin's value file: "0" or "1".
    pub fn value_text(&self) -> (r: &'static str)
        ensures
            *self == GPIOData::Low ==> r@ == "0"@,
            *self == GPIOData::High ==> r@ == "1"@,
    {
        match self {
            GPIOData::Low => "0",
            GPIOData::High => "1",
        }
    }

    /// "LOW" or "HIGH".
    pub fn name(&self) -> (r: &'static str)
        ensures
            *self == GPIOData::Low ==> r@ == "LOW"@,
            *self == GPIOData::High ==> r@ == "HIGH"@,
    {
        match self {
            GPIOData::Low => "LOW",
            GPIOData::High => "HIGH",
        }
    }

    /// The level that the content of a pin's value file gives; anything but a
    /// leading '0' or '1' is an error.
    pub fn parse(content: &[u8]) -> (r: Result<GPIOData, GpioError>)
        ensures
            level_of(content@) is Some ==> r == Ok::<GPIOData, GpioError>(level_of(content@)->Some_0),
            level_of(content@) is None ==> r == Err::<GPIOData, GpioError>(GpioError::InvalidValue),
    {
        if content.len() > 0 && content[0] == 0x30u8 {
            Ok(GPIOData::Low)
        } else if content.len() > 0 && content[0] == 0x31u8 {
            Ok(GPIOData::High)
        } else {
            Err(GpioError::InvalidValue)
        }
    }
}

/// What the pin logic refuses.
#[derive(PartialEq, Eq, Structural, Clone, Copy, Debug)]
pub enum GpioError {
    /// The pin was exported before, inside or outside of this program.
    AlreadyExported,
    /// A level can only be set on a pin in write mode.
    NotWritable,
    /// The value file held something other than "0" or "1".
    InvalidValue,
}

impl GpioError {
    /// A human readable description of the error.
    pub fn message(&self) -> (r: &'static str)
        ensures
            *self == GpioError::AlreadyExported ==> r@ == "Error: gpio was already initialized"@,
            *self == GpioError::NotWritable ==> r@ == "Error: gpio is not in write mode"@,
            *self == GpioError::InvalidValue ==> r@ == "read value other than 1 or 0"@,
    {
        match self {
            GpioError::AlreadyExported => "Error: gpio was already initialized",
            GpioError::NotWritable => "Error: gpio is not in write mode",
            GpioError::InvalidValue => "read value other than 1 or 0",
        }
    }
}

/// A pin of the board, with the direction it is configured for.
pub struct GPIO {
    pin: u8,
    mode: GPIOMode,
}

impl GPIO {
    /// The pin number.
    pub closed spec fn spec_pin(&self) -> u8 {
        self.pin
    }

    /// The configured direction.
    pub closed spec fn spec_mode(&self) -> GPIOMode {
        self.mode
    }

    /// The pin, unless it is exported already.
    pub fn new(gpio: u8, mode: GPIOMode, already_exported: bool) -> (r: Result<GPIO, GpioError>)
        ensures
            already_exported ==> r is Err && r->Err_0 == GpioError::AlreadyExported,
            !already_exported ==> r is Ok && r->Ok_0.spec_pin() == gpio && r->Ok_0.spec_mode() == mode,
    {
        if already_exported {
            return Err(GpioError::AlreadyExported);
        }
        Ok(GPIO { pin: gpio, mode })
    }

    /// Returns the configured pin of the GPIO struct.
    pub fn gpio_number(&self) -> (r: u8)
        ensures
            r == self.spec_pin(),
    {
        self.pin
    }

    /// Returns the configured mode of the GPIO struct.
    pub fn current_mode(&self) -> (r: GPIOMode)
        ensures
            r == self.spec_mode(),
    {
        self.mode
    }

    /// Records a new direction once it has been written to the direction file.
    pub fn set_mode(&mut self, mode: GPIOMode)
        ensures
            final(self).spec_mode() == mode,
            final(self).spec_pin() == old(self).spec_pin(),
    {
        self.mode = mode;
    }

    /// Whether a level may be set: only in write mode.
    pub fn check_writable(&self) -> (r: Result<(), GpioError>)
        ensures
            self.spec_mode() == GPIOMode::Write ==> r is Ok,
            self.spec_mode() == GPIOMode::Read ==> r == Err::<(), GpioError>(GpioError::NotWritable),
    {
        match self.mode {
            GPIOMode::Write => Ok(()),
            GPIOMode::Read => Err(GpioError::NotWritable),
        }
    }
}

} // verus!
