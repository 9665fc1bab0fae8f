use gpu_readback::errors::{
    AllocationError, DeviceError, OutOfMemoryError, QueueSubmitError, DeviceIsLost,
};
use gpu_readback::version::{parse_vulkan_api_version, Vendor};

#[test]
fn result_codes_map_to_errors() {
    assert_eq!(OutOfMemoryError::from_result_code(-2), OutOfMemoryError::OutOfDeviceMemory);
    assert_eq!(OutOfMemoryError::from_result_code(-1), OutOfMemoryError::OutOfHostMemory);
    assert_eq!(OutOfMemoryError::OutOfDeviceMemory.to_result_code(), -2);
    assert_eq!(
        QueueSubmitError::from_result_code(-4),
        QueueSubmitError::DeviceIsLost(DeviceIsLost)
    );
    assert_eq!(
        QueueSubmitError::from_result_code(-1),
        QueueSubmitError::OutOfMemory(OutOfMemoryError::OutOfHostMemory)
    );
    assert_eq!(DeviceError::from_result_code(-4), DeviceError::DeviceLost);
    assert_eq!(DeviceError::from_result_code(-13), DeviceError::Unknown(-13));
    assert_eq!(DeviceError::from_result_code(-3), DeviceError::Unknown(-3));
    assert_eq!(
        DeviceError::from_allocation_error(AllocationError::NoCompatibleMemoryType),
        DeviceError::NoCompatibleMemoryType
    );
    assert_eq!(
        DeviceError::from_submit_error(QueueSubmitError::DeviceIsLost(DeviceIsLost)),
        DeviceError::DeviceLost
    );
    assert_eq!(OutOfMemoryError::OutOfHostMemory.message(), "Out of host memory");
}

#[test]
fn api_versions_format_as_three_fields() {
    assert_eq!(parse_vulkan_api_version(0x0040_3000), "1.3.0");
    assert_eq!(parse_vulkan_api_version((1 << 22) | (2 << 12) | 198), "1.2.198");
    assert_eq!(parse_vulkan_api_version(0), "0.0.0");
    assert_eq!(parse_vulkan_api_version(u32::MAX), "127.1023.4095");
}

#[test]
fn vendors_by_id() {
    assert_eq!(Vendor::from_id(0x10DE), Vendor::Nvidia);
    assert_eq!(Vendor::from_id(0x1002), Vendor::Amd);
    assert_eq!(Vendor::from_id(0x8086), Vendor::Intel);
    assert_eq!(Vendor::from_id(0x13B5), Vendor::Arm);
    assert_eq!(Vendor::from_id(0x5143), Vendor::Qualcomm);
    assert_eq!(Vendor::from_id(0x1010), Vendor::ImgTec);
    assert_eq!(Vendor::from_id(42), Vendor::Unknown(42));
    assert_eq!(Vendor::Amd.name(), "AMD");
    assert_eq!(Vendor::Unknown(42).name(), "Unknown (42)");
}

#[test]
fn driver_versions_in_vendor_format() {
    // 535.113.1.0 packed in NVIDIA's layout.
    let v = (535u32 << 22) | (113 << 14) | (1 << 6);
    assert_eq!(Vendor::Nvidia.parse_driver_version(v), "535.113.1.0");
    assert_eq!(Vendor::Amd.parse_driver_version((2 << 22) | (0 << 12) | 279), "2.0.279");
}
