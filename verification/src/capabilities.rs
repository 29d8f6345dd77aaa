//! Advises on an encoder and on proxies from what the host machine offers.

use vstd::prelude::*;
use vstd::string::*;
use crate::text::same_text;

verus! {

/// Bytes in one gibibyte.
pub const BYTES_PER_GIB: u64 = 1_073_741_824;

/// Below this much memory, in gibibytes, proxies are advised on a machine
/// with a hardware encoder.
pub const PROXY_RAM_GIB: u64 = 16;

/// Below this many cores proxies are advised on every machine.
pub const PROXY_CORES: usize = 8;

/// `sysinfo::System`, the record of what was read from the machine. Nothing
/// inside it is visible here.
#[verifier::external_type_specification]
#[verifier::external_body]
pub struct ExSystem(sysinfo::System);

/// `sysinfo::System::new_all` reads the state of the machine. Nothing is
/// claimed of what it found.
pub assume_specification[ sysinfo::System::new_all ]() -> (system: sysinfo::System);

/// `sysinfo::System::refresh_all` reads the state of the machine again.
/// Nothing is claimed of what it found.
pub assume_specification[ sysinfo::System::refresh_all ](system: &mut sysinfo::System);

/// `sysinfo::System::total_memory` gives the size of the machine's memory in
/// bytes. Nothing is claimed of the number.
pub assume_specification[ sysinfo::System::total_memory ](system: &sysinfo::System) -> (bytes: u64);

/// The number of entries of `sysinfo::System::cpus`: the processors that the
/// last refresh found. Nothing is claimed of the number.
#[verifier::external_body]
fn cpu_count(system: &sysinfo::System) -> (count: usize) {
    system.cpus().len()
}

/// What is known of the host machine, and what is advised for it.
#[derive(Clone, Debug)]
pub struct SystemCapabilities {
    pub cpu_cores: usize,
    pub ram_gb: u64,
    pub gpu_vendor: String,
    pub recommended_encoder: String,
    pub proxy_recommended: bool,
}

/// What a capability report is, as mathematical values.
pub struct CapabilitiesModel {
    pub cpu_cores: nat,
    pub ram_gb: nat,
    pub gpu_vendor: Seq<char>,
    pub recommended_encoder: Seq<char>,
    pub proxy_recommended: bool,
}

impl View for SystemCapabilities {
    type V = CapabilitiesModel;

    open spec fn view(&self) -> CapabilitiesModel {
        CapabilitiesModel {
            cpu_cores: self.cpu_cores as nat,
            ram_gb: self.ram_gb as nat,
            gpu_vendor: self.gpu_vendor@,
            recommended_encoder: self.recommended_encoder@,
            proxy_recommended: self.proxy_recommended,
        }
    }
}

/// The graphics vendor assumed for an operating system.
pub open spec fn vendor_for(os: Seq<char>) -> Seq<char> {
    if os == "windows"@ {
        "Nvidia"@
    } else if os == "macos"@ {
        "Apple"@
    } else {
        "Generic"@
    }
}

/// The encoder advised for a graphics vendor.
pub open spec fn encoder_for(vendor: Seq<char>) -> Seq<char> {
    if vendor == "Nvidia"@ {
        "h264_nvenc"@
    } else if vendor == "AMD"@ {
        "h264_amf"@
    } else if vendor == "Intel"@ {
        "h264_qsv"@
    } else if vendor == "Apple"@ {
        "h264_videotoolbox"@
    } else {
        "libx264"@
    }
}

/// Whether the vendor alone, with `ram_gb` gibibytes of memory, calls for
/// proxies: with the encoders of Nvidia, AMD and Intel below 16 gibibytes,
/// with Apple's never, without a hardware encoder always.
pub open spec fn vendor_wants_proxy(vendor: Seq<char>, ram_gb: nat) -> bool {
    if vendor == "Nvidia"@ || vendor == "AMD"@ || vendor == "Intel"@ {
        ram_gb < 16
    } else if vendor == "Apple"@ {
        false
    } else {
        true
    }
}

/// Whether proxies are advised: the vendor calls for them, or the machine
/// has fewer than 8 cores.
pub open spec fn proxy_for(vendor: Seq<char>, ram_gb: nat, cpu_cores: nat) -> bool {
    vendor_wants_proxy(vendor, ram_gb) || cpu_cores < 8
}

/// The report for a machine with `cpu_cores` cores, `total_memory` bytes
/// of memory and graphics of `vendor`.
pub open spec fn assessment(
    cpu_cores: nat,
    total_memory: nat,
    vendor: Seq<char>,
) -> CapabilitiesModel {
    CapabilitiesModel {
        cpu_cores,
        ram_gb: total_memory / 1_073_741_824,
        gpu_vendor: vendor,
        recommended_encoder: encoder_for(vendor),
        proxy_recommended: proxy_for(vendor, total_memory / 1_073_741_824, cpu_cores),
    }
}

/// The graphics vendor assumed for the operating system named `os`, as
/// `std::env::consts::OS` names it.
pub fn detect_gpu_vendor(os: &str) -> (vendor: String)
    ensures
        vendor@ == vendor_for(os@),
{
    if same_text(os, "windows") {
        String::from_str("Nvidia")
    } else if same_text(os, "macos") {
        String::from_str("Apple")
    } else {
        String::from_str("Generic")
    }
}

/// Reports on a machine with `cpu_cores` cores, `total_memory` bytes of
/// memory and graphics of `gpu_vendor`.
pub fn assess(cpu_cores: usize, total_memory: u64, gpu_vendor: String) -> (report:
    SystemCapabilities)
    ensures
        report@ == assessment(cpu_cores as nat, total_memory as nat, gpu_vendor@),
{
    let ram_gb: u64 = total_memory / BYTES_PER_GIB;
    let vendor = gpu_vendor.as_str();
    let (encoder, proxy) = if same_text(vendor, "Nvidia") {
        ("h264_nvenc", ram_gb < PROXY_RAM_GIB)
    } else if same_text(vendor, "AMD") {
        ("h264_amf", ram_gb < PROXY_RAM_GIB)
    } else if same_text(vendor, "Intel") {
        ("h264_qsv", ram_gb < PROXY_RAM_GIB)
    } else if same_text(vendor, "Apple") {
        ("h264_videotoolbox", false)
    } else {
        ("libx264", true)
    };
    SystemCapabilities {
        cpu_cores,
        ram_gb,
        recommended_encoder: String::from_str(encoder),
        proxy_recommended: proxy || cpu_cores < PROXY_CORES,
        gpu_vendor,
    }
}

/// Reads the machine's cores and memory and reports on it, the graphics
/// vendor being the one assumed for the operating system named `os`.
/// Whatever the machine has, the report is the assessment of some number of
/// cores and some amount of memory, so the advice fits the figures reported.
pub fn detect_system_capabilities(os: &str) -> (report: SystemCapabilities)
    ensures
        exists|cpu_cores: nat, total_memory: nat|
            cpu_cores <= usize::MAX && total_memory <= u64::MAX && report@ == #[trigger] assessment(
                cpu_cores,
                total_memory,
                vendor_for(os@),
            ),
        report@.gpu_vendor == vendor_for(os@),
        report@.recommended_encoder == encoder_for(report@.gpu_vendor),
        report@.proxy_recommended == proxy_for(
            report@.gpu_vendor,
            report@.ram_gb,
            report@.cpu_cores,
        ),
{
    let mut system = sysinfo::System::new_all();
    system.refresh_all();
    let cpu_cores: usize = cpu_count(&system);
    let total_memory: u64 = system.total_memory();
    let report = assess(cpu_cores, total_memory, detect_gpu_vendor(os));
    assert(report@ == assessment(cpu_cores as nat, total_memory as nat, vendor_for(os@)));
    report
}

} // verus!
