//! Board support logic for the PINE64 PineTime smartwatch: the decisions and
//! arithmetic behind its backlight, battery gauge, button, display transfers,
//! SPI flash geometry and vibration motor, each stated and proved.
pub mod backlight;
pub mod battery;
pub mod button;
pub mod display;
pub mod flash;
pub mod vibrator;
