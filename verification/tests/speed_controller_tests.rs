use gameboy_bus::speed_controller::CgbCompatibility;
use gameboy_bus::speed_controller::CpuSpeedController;

#[test]
fn starts_in_single_speed() {
    let ctrl = CpuSpeedController::new(CgbCompatibility::Dmg);
    assert!(!ctrl.is_double_speed());
    assert!(!ctrl.is_speed_switch_prepared());
    assert_eq!(ctrl.read_key1(), 0x7E);
}

#[test]
fn prepare_flag_round_trip() {
    let mut ctrl = CpuSpeedController::new(CgbCompatibility::CgbOnly);
    ctrl.set_prepare_speed_switch(true);
    assert!(ctrl.is_speed_switch_prepared());
    assert_eq!(ctrl.read_key1(), 0x7F);
    ctrl.set_prepare_speed_switch(false);
    assert!(!ctrl.is_speed_switch_prepared());
    assert_eq!(ctrl.read_key1(), 0x7E);
}

#[test]
fn switch_toggles_and_consumes_prepare() {
    let mut ctrl = CpuSpeedController::new(CgbCompatibility::CgbAndDmg);
    ctrl.set_prepare_speed_switch(true);
    ctrl.switch_speed();
    assert!(ctrl.is_double_speed());
    assert!(!ctrl.is_speed_switch_prepared());
    assert_eq!(ctrl.read_key1(), 0xFE);
    // A second prepared switch returns to single speed.
    ctrl.set_prepare_speed_switch(true);
    assert_eq!(ctrl.read_key1(), 0xFF);
    ctrl.switch_speed();
    assert!(!ctrl.is_double_speed());
    assert_eq!(ctrl.read_key1(), 0x7E);
}

#[test]
fn compatibility_codes() {
    assert_eq!(CgbCompatibility::from_code(0x80), CgbCompatibility::CgbAndDmg);
    assert_eq!(CgbCompatibility::from_code(0xC0), CgbCompatibility::CgbOnly);
    assert_eq!(CgbCompatibility::from_code(0x00), CgbCompatibility::Dmg);
    assert_eq!(CgbCompatibility::from_code(0x33), CgbCompatibility::Dmg);
}

#[test]
fn compatibility_can_be_updated() {
    let mut ctrl = CpuSpeedController::new(CgbCompatibility::Dmg);
    ctrl.set_console_compatibility(CgbCompatibility::CgbOnly);
    assert_eq!(ctrl.cgb_compatibility, CgbCompatibility::CgbOnly);
}
