use rustpi_io::gpio::{GPIOData, GPIOMode, GpioError, GPIO};

#[test]
fn pin_state() {
    let mut pin = GPIO::new(17, GPIOMode::Read, false).ok().unwrap();
    assert_eq!(pin.gpio_number(), 17);
    assert_eq!(pin.current_mode(), GPIOMode::Read);
    assert_eq!(pin.check_writable(), Err(GpioError::NotWritable));
    pin.set_mode(GPIOMode::Write);
    assert_eq!(pin.current_mode(), GPIOMode::Write);
    assert_eq!(pin.gpio_number(), 17);
    assert_eq!(pin.check_writable(), Ok(()));
}

#[test]
fn exported_pin_is_refused() {
    match GPIO::new(4, GPIOMode::Write, true) {
        Err(e) => assert_eq!(e, GpioError::AlreadyExported),
        Ok(_) => panic!("an exported pin must be refused"),
    }
}

#[test]
fn value_file_content() {
    assert_eq!(GPIOData::parse(b"0\n"), Ok(GPIOData::Low));
    assert_eq!(GPIOData::parse(b"1\n"), Ok(GPIOData::High));
    assert_eq!(GPIOData::parse(b"x"), Err(GpioError::InvalidValue));
    assert_eq!(GPIOData::parse(b""), Err(GpioError::InvalidValue));
}

#[test]
fn texts() {
    assert_eq!(GPIOMode::Read.direction(), "in");
    assert_eq!(GPIOMode::Write.direction(), "out");
    assert_eq!(GPIOMode::Write.name(), "Write");
    assert_eq!(GPIOData::High.value_text(), "1");
    assert_eq!(GPIOData::Low.name(), "LOW");
}
