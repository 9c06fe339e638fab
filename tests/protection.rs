use pd_switch::comp::{
    check_undervoltage_protection, check_undervoltage_software, UvpAction, UvpConfig, UvpMonitor,
};
use pd_switch::config_manager::{
    register_address, target_current_from_bytes, target_voltage_from_bytes, u32_from_be_bytes,
    u32_to_be_bytes, Config, ConfigManager, Register,
};
use pd_switch::types::{AvailableVoltCurr, RequestError};

#[test]
fn undervoltage_threshold() {
    assert!(check_undervoltage_software(4999, 5000));
    assert!(!check_undervoltage_software(5000, 5000));
    assert!(!check_undervoltage_protection());
}

#[test]
fn uvp_cycle() {
    let cfg = UvpConfig::default();
    assert_eq!(cfg, UvpConfig { threshold_mv: 5000, auto_recovery: true, recovery_delay_ms: 1000 });
    let mut m = UvpMonitor::new();
    assert_eq!(m.on_sample(&cfg, 5200), UvpAction::Hold);
    assert_eq!(m.on_sample(&cfg, 4800), UvpAction::TurnOff);
    assert!(m.protection_active());
    assert_eq!(m.on_sample(&cfg, 4700), UvpAction::Hold);
    assert_eq!(m.on_sample(&cfg, 5100), UvpAction::AwaitRecovery);
    assert!(!m.on_recovery_sample(&cfg, Some(4900)));
    assert!(m.protection_active());
    assert!(!m.on_recovery_sample(&cfg, None));
    assert!(m.on_recovery_sample(&cfg, Some(5000)));
    assert!(!m.protection_active());
}

#[test]
fn uvp_without_auto_recovery_stays_off() {
    let cfg = UvpConfig { threshold_mv: 5000, auto_recovery: false, recovery_delay_ms: 0 };
    let mut m = UvpMonitor::new();
    assert_eq!(m.on_sample(&cfg, 100), UvpAction::TurnOff);
    assert_eq!(m.on_sample(&cfg, 9000), UvpAction::Hold);
    assert!(m.protection_active());
}

#[test]
fn big_endian_codec() {
    assert_eq!(u32_from_be_bytes([0x12, 0x34, 0x56, 0x78]), 0x1234_5678);
    assert_eq!(u32_to_be_bytes(0x1234_5678), [0x12, 0x34, 0x56, 0x78]);
    assert_eq!(u32_to_be_bytes(5000), [0, 0, 0x13, 0x88]);
}

#[test]
fn stored_values_are_clamped() {
    assert_eq!(target_voltage_from_bytes([0, 0, 0, 0]), 3000);
    assert_eq!(target_voltage_from_bytes(u32_to_be_bytes(9000)), 9000);
    assert_eq!(target_voltage_from_bytes(u32_to_be_bytes(60_000)), 48_000);
    assert_eq!(target_current_from_bytes([0, 0, 0, 50]), 100);
    assert_eq!(target_current_from_bytes(u32_to_be_bytes(3000)), 3000);
    assert_eq!(target_current_from_bytes([0xff, 0xff, 0xff, 0xff]), 5000);
}

#[test]
fn config_manager_without_memory() {
    let mut cm = ConfigManager::new();
    assert_eq!(cm.write_target_voltage(9000), Ok(()));
    assert_eq!(cm.write_target_current(2000), Ok(()));
    assert_eq!(cm.read_target_voltage(), Ok(3000));
    assert_eq!(cm.read_target_current(), Ok(100));
    assert_eq!(
        cm.read_config(),
        Ok(Config { target_voltage_mv: 3000, target_current_ma: 100 })
    );
    assert_eq!(cm.reset_config(), Ok(()));
    assert_eq!(Config::default(), Config { target_voltage_mv: 5000, target_current_ma: 500 });
    assert_eq!(register_address(Register::TargetVoltage), 0);
    assert_eq!(register_address(Register::TargetCurrent), 4);
}

#[test]
fn nothing_offered_by_default() {
    let a = AvailableVoltCurr::default();
    assert_eq!(a._5v, None);
    assert_eq!(a._20v, None);
    assert_ne!(RequestError::Mismatch, RequestError::Unsupported);
}
