use gas_monitor::ErrorKind;
use gas_monitor::ShiftRegister;
use gas_monitor::ShiftRegisterType;

#[test]
fn shiftregister_creation() {
    let led = ShiftRegister::new(ShiftRegisterType::LED);
    assert_eq!(led.data, 0);
}

#[test]
fn set_clear_all_bits() {
    let mut led = ShiftRegister::new(ShiftRegisterType::LED);

    for i in 1..64 {
        led.set(i).unwrap();
        assert_eq!(led.get(i).unwrap(), true);

        led.clear(i).unwrap();
        assert_eq!(led.get(i).unwrap(), false);
    }
}

#[test]
fn toggle_all_bites_one_time() {
    let mut led = ShiftRegister::new(ShiftRegisterType::LED);

    for i in 1..64 {
        assert_eq!(led.get(i).unwrap(), false);
        led.toggle(i).unwrap();
        assert_eq!(led.get(i).unwrap(), true);
        led.toggle(i).unwrap();
        assert_eq!(led.get(i).unwrap(), false);
    }
}

#[test]
fn position_zero_is_out_of_range() {
    let mut relais = ShiftRegister::new(ShiftRegisterType::RELAIS);
    assert_eq!(relais.set(0), Err(ErrorKind::OutOfRange));
    assert_eq!(relais.clear(0), Err(ErrorKind::OutOfRange));
    assert_eq!(relais.toggle(0), Err(ErrorKind::OutOfRange));
    assert_eq!(relais.get(0), Err(ErrorKind::OutOfRange));
}

#[test]
fn position_above_width_is_out_of_range() {
    let mut led = ShiftRegister::new(ShiftRegisterType::LED);
    assert_eq!(led.set(65), Err(ErrorKind::OutOfRange));
    assert_eq!(led.clear(65), Err(ErrorKind::OutOfRange));
    assert_eq!(led.toggle(65), Err(ErrorKind::OutOfRange));
    assert_eq!(led.get(65), Err(ErrorKind::OutOfRange));
    assert_eq!(led.data, 0);
}

#[test]
fn set_touches_only_the_named_bit() {
    let mut led = ShiftRegister::new(ShiftRegisterType::LED);
    led.set(1).unwrap();
    led.set(3).unwrap();
    assert_eq!(led.get(1).unwrap(), true);
    assert_eq!(led.get(2).unwrap(), false);
    assert_eq!(led.get(3).unwrap(), true);
    assert_eq!(led.data, 0b101);
}

#[test]
fn clear_keeps_the_other_bits() {
    let mut led = ShiftRegister::new(ShiftRegisterType::LED);
    led.set(1).unwrap();
    led.set(2).unwrap();
    led.set(3).unwrap();
    led.clear(2).unwrap();
    assert_eq!(led.get(1).unwrap(), true);
    assert_eq!(led.get(2).unwrap(), false);
    assert_eq!(led.get(3).unwrap(), true);
}

#[test]
fn toggle_twice_restores_the_register() {
    let mut led = ShiftRegister::new(ShiftRegisterType::LED);
    led.set(5).unwrap();
    let before = led.data;
    led.toggle(9).unwrap();
    assert_eq!(led.get(9).unwrap(), true);
    led.toggle(9).unwrap();
    assert_eq!(led.get(9).unwrap(), false);
    assert_eq!(led.data, before);
}
