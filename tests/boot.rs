use airnode::boot::{is_running, BootFailure, DeviceStatus};

#[test]
fn fatal_boot_error_halts() {
    let s = airnode::boot::panic(BootFailure::SensorBus);
    assert_eq!(s, DeviceStatus::Halted { cause: BootFailure::SensorBus });
    assert!(!is_running(s));
    assert!(is_running(DeviceStatus::Running));
}
