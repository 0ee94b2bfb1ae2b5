use pmxview::gpu::{choose_device, device_power, DeviceKind};

#[test]
fn device_powers() {
    assert_eq!(device_power(DeviceKind::DiscreteGpu), 2);
    assert_eq!(device_power(DeviceKind::IntegratedGpu), 1);
    assert_eq!(device_power(DeviceKind::VirtualGpu), 1);
    assert_eq!(device_power(DeviceKind::Cpu), -1);
    assert_eq!(device_power(DeviceKind::Other), -1);
}

#[test]
fn device_choice() {
    assert_eq!(choose_device(&[]), None);
    assert_eq!(choose_device(&[-1]), Some(0));
    assert_eq!(choose_device(&[1, 2, -1]), Some(1));
    // among devices of the greatest power the last one listed is chosen
    assert_eq!(choose_device(&[2, 1, 2, -1]), Some(2));
    assert_eq!(choose_device(&[1, 1, 1]), Some(2));
}
