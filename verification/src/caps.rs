//! Adapter capabilities and platform detection.
//!
//! [`AdapterCaps`] is a stable, plain-data summary of the GPU adapter: bools,
//! integers and enums. It is built once from what the renderer reports about
//! the adapter ([`AdapterCaps::from_adapter`]).

use vstd::prelude::*;

verus! {

/// Selected graphics backend.
#[derive(Debug, Clone, Copy, PartialEq, Eq, Structural)]
#[non_exhaustive]
pub enum Backend {
    Vulkan,
    Dx12,
    Metal,
    Gl,
    BrowserWebGpu,
    Other,
}

/// GPU vendor inferred from the PCI vendor id.
#[derive(Debug, Clone, Copy, PartialEq, Eq, Structural)]
#[non_exhaustive]
pub enum GpuVendor {
    Nvidia,
    Amd,
    Intel,
    Apple,
    Qualcomm,
    Arm,
    Other,
}

/// Where the application is running.
#[derive(Debug, Clone, Copy, PartialEq, Eq, Structural)]
#[non_exhaustive]
pub enum PlatformTarget {
    Wasm,
    WindowsDesktop,
    LinuxDesktop,
    MacDesktop,
    Other,
}

/// Stable summary of the active adapter.
#[derive(Debug, Clone, Copy, PartialEq, Eq, Structural)]
pub struct AdapterCaps {
    /// Selected graphics backend (Vulkan, DX12, Metal, …).
    pub backend: Backend,
    /// GPU vendor, derived from the PCI vendor id.
    pub vendor: GpuVendor,
    /// `max_texture_dimension_2d` of the device limits.
    pub max_texture_dim_2d: u32,
    /// Ray queries are supported. Consumers gating on ray-tracing support
    /// only need this flag.
    pub ray_query: bool,
    /// Timestamp queries are supported (GPU profiling).
    pub timestamp_query: bool,
    /// DLSS is reachable on this adapter (Vulkan + Nvidia).
    pub supports_dlss: bool,
}

/// The vendor named by a standard PCI vendor id.
pub open spec fn vendor_of_pci_id(id: u32) -> GpuVendor {
    if id == 0x10DE {
        GpuVendor::Nvidia
    } else if id == 0x1002 || id == 0x1022 {
        GpuVendor::Amd
    } else if id == 0x8086 {
        GpuVendor::Intel
    } else if id == 0x106B {
        GpuVendor::Apple
    } else if id == 0x5143 {
        GpuVendor::Qualcomm
    } else if id == 0x13B5 {
        GpuVendor::Arm
    } else {
        GpuVendor::Other
    }
}

/// DLSS needs an Nvidia adapter driven through Vulkan.
pub open spec fn dlss_reachable(backend: Backend, vendor: GpuVendor) -> bool {
    backend == Backend::Vulkan && vendor == GpuVendor::Nvidia
}

/// The platform described by a target family and operating system, in the
/// order the checks are made: a wasm family wins over any operating system.
pub open spec fn platform_of(family: Seq<char>, os: Seq<char>) -> PlatformTarget {
    if family == "wasm"@ {
        PlatformTarget::Wasm
    } else if os == "windows"@ {
        PlatformTarget::WindowsDesktop
    } else if os == "linux"@ {
        PlatformTarget::LinuxDesktop
    } else if os == "macos"@ {
        PlatformTarget::MacDesktop
    } else {
        PlatformTarget::Other
    }
}

impl GpuVendor {
    /// Map a PCI vendor id onto a vendor (standard PCI vendor ids).
    pub fn from_pci_id(vendor: u32) -> (v: Self)
        ensures
            v == vendor_of_pci_id(vendor),
    {
        match vendor {
            0x10DE => Self::Nvidia,
            0x1002 | 0x1022 => Self::Amd,
            0x8086 => Self::Intel,
            0x106B => Self::Apple,
            0x5143 => Self::Qualcomm,
            0x13B5 => Self::Arm,
            _ => Self::Other,
        }
    }
}

fn str_equal(a: &str, b: &str) -> (r: bool)
    ensures
        r == (a@ == b@),
{
    let n = a.unicode_len();
    if n != b.unicode_len() {
        return false;
    }
    let mut i: usize = 0;
    while i < n
        invariant
            n == a@.len(),
            n == b@.len(),
            i <= n,
            forall|j: int| 0 <= j < i ==> a@[j] == b@[j],
        decreases n - i,
    {
        if a.get_char(i) != b.get_char(i) {
            assert(a@[i as int] != b@[i as int]);
            return false;
        }
        i = i + 1;
    }
    assert(a@ =~= b@);
    true
}

impl PlatformTarget {
    /// The platform for a target family (`"wasm"`, `"unix"`, `"windows"`, …)
    /// and target operating system (`"windows"`, `"linux"`, `"macos"`, …),
    /// as the compiler names them for the build target.
    pub fn detect(family: &str, os: &str) -> (t: Self)
        ensures
            t == platform_of(family@, os@),
    {
        if str_equal(family, "wasm") {
            Self::Wasm
        } else if str_equal(os, "windows") {
            Self::WindowsDesktop
        } else if str_equal(os, "linux") {
            Self::LinuxDesktop
        } else if str_equal(os, "macos") {
            Self::MacDesktop
        } else {
            Self::Other
        }
    }
}

impl AdapterCaps {
    /// Project what the renderer reports about its adapter onto a caps
    /// summary: the backend, the PCI vendor id, the 2D texture limit, and
    /// whether ray queries and timestamp queries are among its features.
    pub fn from_adapter(
        backend: Backend,
        pci_vendor: u32,
        max_texture_dim_2d: u32,
        ray_query: bool,
        timestamp_query: bool,
    ) -> (caps: Self)
        ensures
            caps.backend == backend,
            caps.vendor == vendor_of_pci_id(pci_vendor),
            caps.max_texture_dim_2d == max_texture_dim_2d,
            caps.ray_query == ray_query,
            caps.timestamp_query == timestamp_query,
            caps.supports_dlss == dlss_reachable(backend, vendor_of_pci_id(pci_vendor)),
            caps.supports_dlss <==> (backend == Backend::Vulkan && pci_vendor == 0x10DE),
    {
        let vendor = GpuVendor::from_pci_id(pci_vendor);
        AdapterCaps {
            backend,
            vendor,
            max_texture_dim_2d,
            ray_query,
            timestamp_query,
            supports_dlss: matches!((backend, vendor), (Backend::Vulkan, GpuVendor::Nvidia)),
        }
    }
}

/// DLSS is reachable exactly on an Nvidia adapter driven through Vulkan: no
/// other backend reaches it, whatever the vendor, and no other vendor does.
pub proof fn lemma_dlss_reachable_exactly(backend: Backend, vendor: GpuVendor)
    ensures
        dlss_reachable(backend, vendor) <==> (backend == Backend::Vulkan && vendor
            == GpuVendor::Nvidia),
        backend != Backend::Vulkan ==> !dlss_reachable(backend, vendor),
        vendor != GpuVendor::Nvidia ==> !dlss_reachable(backend, vendor),
{
}

/// The standard PCI vendor ids name their vendors, and every other id names
/// no known vendor.
pub proof fn lemma_pci_vendor_ids(id: u32)
    ensures
        vendor_of_pci_id(0x10DE) == GpuVendor::Nvidia,
        vendor_of_pci_id(0x1002) == GpuVendor::Amd,
        vendor_of_pci_id(0x1022) == GpuVendor::Amd,
        vendor_of_pci_id(0x8086) == GpuVendor::Intel,
        vendor_of_pci_id(0x106B) == GpuVendor::Apple,
        vendor_of_pci_id(0x5143) == GpuVendor::Qualcomm,
        vendor_of_pci_id(0x13B5) == GpuVendor::Arm,
        (vendor_of_pci_id(id) == GpuVendor::Nvidia) <==> id == 0x10DE,
        (vendor_of_pci_id(id) == GpuVendor::Amd) <==> (id == 0x1002 || id == 0x1022),
        id != 0x10DE && id != 0x1002 && id != 0x1022 && id != 0x8086 && id != 0x106B && id
            != 0x5143 && id != 0x13B5 ==> vendor_of_pci_id(id) == GpuVendor::Other,
{
}

/// A wasm target family is a wasm platform whatever the operating system;
/// otherwise the operating system decides, and an unknown one is `Other`.
pub proof fn lemma_platform_detection(family: Seq<char>, os: Seq<char>)
    ensures
        family == "wasm"@ ==> platform_of(family, os) == PlatformTarget::Wasm,
        family != "wasm"@ && os == "windows"@ ==> platform_of(family, os)
            == PlatformTarget::WindowsDesktop,
        family != "wasm"@ && os == "linux"@ ==> platform_of(family, os)
            == PlatformTarget::LinuxDesktop,
        family != "wasm"@ && os == "macos"@ ==> platform_of(family, os)
            == PlatformTarget::MacDesktop,
        family != "wasm"@ && os != "windows"@ && os != "linux"@ && os != "macos"@ ==> platform_of(
            family,
            os,
        ) == PlatformTarget::Other,
        (platform_of(family, os) == PlatformTarget::Wasm) <==> family == "wasm"@,
{
    reveal_strlit("windows");
    reveal_strlit("linux");
    reveal_strlit("macos");
    assert("linux"@[0] != "windows"@[0]);
    assert("macos"@[0] != "windows"@[0]);
    assert("macos"@[0] != "linux"@[0]);
}

} // verus!
