//! Adapter caps, vendor ids and platform detection.

use bevy_settings_plus::prelude::{AdapterCaps, Backend, GpuVendor, PlatformTarget};

#[test]
fn pci_vendor_ids_map_to_vendors() {
    assert_eq!(GpuVendor::from_pci_id(0x10DE), GpuVendor::Nvidia);
    assert_eq!(GpuVendor::from_pci_id(0x1002), GpuVendor::Amd);
    assert_eq!(GpuVendor::from_pci_id(0x1022), GpuVendor::Amd);
    assert_eq!(GpuVendor::from_pci_id(0x8086), GpuVendor::Intel);
    assert_eq!(GpuVendor::from_pci_id(0x106B), GpuVendor::Apple);
    assert_eq!(GpuVendor::from_pci_id(0x5143), GpuVendor::Qualcomm);
    assert_eq!(GpuVendor::from_pci_id(0x13B5), GpuVendor::Arm);
    assert_eq!(GpuVendor::from_pci_id(0), GpuVendor::Other);
    assert_eq!(GpuVendor::from_pci_id(0x10DF), GpuVendor::Other);
}

#[test]
fn detect_prefers_wasm_family_then_os() {
    assert_eq!(PlatformTarget::detect("wasm", "unknown"), PlatformTarget::Wasm);
    assert_eq!(PlatformTarget::detect("wasm", "linux"), PlatformTarget::Wasm);
    assert_eq!(PlatformTarget::detect("windows", "windows"), PlatformTarget::WindowsDesktop);
    assert_eq!(PlatformTarget::detect("unix", "linux"), PlatformTarget::LinuxDesktop);
    assert_eq!(PlatformTarget::detect("unix", "macos"), PlatformTarget::MacDesktop);
    assert_eq!(PlatformTarget::detect("unix", "freebsd"), PlatformTarget::Other);
    assert_eq!(PlatformTarget::detect("unix", "Linux"), PlatformTarget::Other);
    assert_eq!(PlatformTarget::detect("", ""), PlatformTarget::Other);
}

#[test]
fn dlss_reachable_only_on_vulkan_nvidia() {
    let caps = AdapterCaps::from_adapter(Backend::Vulkan, 0x10DE, 16384, true, true);
    assert!(caps.supports_dlss);
    assert_eq!(caps.vendor, GpuVendor::Nvidia);
    assert_eq!(caps.max_texture_dim_2d, 16384);
    assert!(caps.ray_query && caps.timestamp_query);

    let dx12 = AdapterCaps::from_adapter(Backend::Dx12, 0x10DE, 16384, true, true);
    assert!(!dx12.supports_dlss);
    let amd = AdapterCaps::from_adapter(Backend::Vulkan, 0x1002, 8192, false, false);
    assert!(!amd.supports_dlss);
    assert_eq!(amd.vendor, GpuVendor::Amd);
    assert!(!amd.ray_query && !amd.timestamp_query);
}
