use pinetime_bsp::backlight::{BacklightController, BrightnessLevel, Level};

#[test]
fn default_brightness_is_low() {
    assert_eq!(BrightnessLevel::default(), BrightnessLevel::Low);
}

#[test]
fn new_controller_is_dark_at_default_level() {
    let c = BacklightController::new();
    assert_eq!(c.pin_levels(), (Level::High, Level::High, Level::High));
    assert_eq!(c.brightness(), BrightnessLevel::Low);
}

#[test]
fn set_brightness_lights_only_its_line() {
    let mut c = BacklightController::new();
    c.set_brightness(BrightnessLevel::Low);
    assert_eq!(c.pin_levels(), (Level::Low, Level::High, Level::High));
    c.set_brightness(BrightnessLevel::Medium);
    assert_eq!(c.pin_levels(), (Level::High, Level::Low, Level::High));
    assert_eq!(c.brightness(), BrightnessLevel::Medium);
    c.set_brightness(BrightnessLevel::High);
    assert_eq!(c.pin_levels(), (Level::High, Level::High, Level::Low));
    assert_eq!(c.brightness(), BrightnessLevel::High);
}

#[test]
fn disable_keeps_level_and_enable_restores() {
    let mut c = BacklightController::new();
    c.set_brightness(BrightnessLevel::Medium);
    c.disable();
    assert_eq!(c.pin_levels(), (Level::High, Level::High, Level::High));
    assert_eq!(c.brightness(), BrightnessLevel::Medium);
    c.enable();
    assert_eq!(c.pin_levels(), (Level::High, Level::Low, Level::High));
    assert_eq!(c.brightness(), BrightnessLevel::Medium);
}

#[test]
fn enable_and_disable_are_idempotent() {
    let mut c = BacklightController::new();
    c.enable();
    assert_eq!(c.pin_levels(), (Level::Low, Level::High, Level::High));
    c.enable();
    assert_eq!(c.pin_levels(), (Level::Low, Level::High, Level::High));
    c.disable();
    c.disable();
    assert_eq!(c.pin_levels(), (Level::High, Level::High, Level::High));
    assert_eq!(c.brightness(), BrightnessLevel::Low);
}
