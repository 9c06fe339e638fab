//! Control core of a USB-PD power switch: button gesture detection, the
//! system-mode and secondary-output coordinators with the reset between them,
//! thermal hysteresis for the fan, undervoltage protection and the settings
//! store, each as a state machine over plain values whose steps are proved
//! against a model.

pub mod app_manager;
pub mod button;
pub mod comp;
pub mod config_manager;
pub mod coordination;
pub mod fan_manager;
pub mod gesture_laws;
pub mod pins;
pub mod types;
pub mod vbus_manager;
