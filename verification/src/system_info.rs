//! One-shot collector of host facts: operating system, CPU, memory, storage
//! volumes and host details.
//!
//! The raw facts come from the `sysinfo` crate through trusted wrappers that
//! return plain values; everything derived from them — vendor detection,
//! unit conversion, storage-type inference — is computed and specified here.

use vstd::prelude::*;
use crate::error::BenchmarkError;

verus! {

#[derive(Debug, Clone)]
pub struct SystemInfo {
    pub os: String,
    pub cpu: CpuInfo,
    pub memory: MemoryInfo,
    pub storage: Vec<StorageInfo>,
    pub system_details: SystemDetails,
}

#[derive(Debug, Clone)]
pub struct CpuInfo {
    pub name: String,
    pub vendor: String,
    pub cores: usize,
    pub threads: usize,
    pub base_frequency: u64,
    pub max_frequency: u64,
    pub architecture: String,
    pub cache_info: CacheInfo,
}

/// Memory figures in whole gigabytes; fields the provider cannot fill are
/// zero or "Unknown".
#[derive(Debug, Clone)]
pub struct MemoryInfo {
    pub total: u64,
    pub available: u64,
    pub used: u64,
    pub memory_type: String,
    pub speed: u64,
    pub slots_used: usize,
    pub slots_total: usize,
}

#[derive(Debug, Clone)]
pub struct StorageInfo {
    pub name: String,
    pub storage_type: StorageType,
    pub capacity: u64,
    pub available: u64,
    pub interface: String,
    pub file_system: String,
    pub mount_point: String,
}

#[derive(Debug, Clone, PartialEq, Eq, Structural)]
pub enum StorageType {
    SSD,
    HDD,
    NVMe,
    Unknown,
}

/// Cache sizes in KiB; unknown levels are `None`.
#[derive(Debug, Clone)]
pub struct CacheInfo {
    pub l1_data: Option<u64>,
    pub l1_instruction: Option<u64>,
    pub l2: Option<u64>,
    pub l3: Option<u64>,
}

/// Host details; `temperatures` maps a component name to a reading in whole
/// degrees (currently never filled by the provider).
#[derive(Debug, Clone)]
pub struct SystemDetails {
    pub hostname: String,
    pub uptime: u64,
    pub boot_time: u64,
    pub kernel_version: String,
    pub total_processes: usize,
    pub temperatures: Vec<(String, u32)>,
}

#[verifier::external_type_specification]
#[verifier::external_body]
pub struct ExSystem(sysinfo::System);

/// Relies on sysinfo::System::new_all: a fully refreshed system snapshot.
#[verifier::external_body]
pub(crate) fn system_new_all() -> sysinfo::System {
    sysinfo::System::new_all()
}

/// Relies on sysinfo::System::refresh_all.
#[verifier::external_body]
pub(crate) fn refresh_all(sys: &mut sysinfo::System) {
    sys.refresh_all();
}

/// Relies on sysinfo::System::refresh_memory.
#[verifier::external_body]
pub(crate) fn refresh_memory(sys: &mut sysinfo::System) {
    sys.refresh_memory();
}

/// Relies on sysinfo::System::used_memory: bytes of RAM in use. The value
/// depends on the machine's state; nothing numeric is promised.
#[verifier::external_body]
pub(crate) fn used_memory(sys: &sysinfo::System) -> u64 {
    sys.used_memory()
}

/// Relies on sysinfo::System::total_memory: the RAM size in bytes.
#[verifier::external_body]
pub(crate) fn total_memory(sys: &sysinfo::System) -> u64 {
    sys.total_memory()
}

/// Relies on sysinfo::System::available_memory: bytes available for (re)use.
#[verifier::external_body]
pub(crate) fn available_memory(sys: &sysinfo::System) -> u64 {
    sys.available_memory()
}

/// Relies on sysinfo::System::name: the operating system's name, if known.
#[verifier::external_body]
pub(crate) fn sys_os_name() -> Option<String> {
    sysinfo::System::name()
}

/// Relies on sysinfo::System::os_version: the OS version, if known.
#[verifier::external_body]
pub(crate) fn sys_os_version() -> Option<String> {
    sysinfo::System::os_version()
}

/// Relies on sysinfo::System::kernel_version, if known.
#[verifier::external_body]
pub(crate) fn sys_kernel_version() -> Option<String> {
    sysinfo::System::kernel_version()
}

/// Relies on sysinfo::System::host_name, if known.
#[verifier::external_body]
pub(crate) fn sys_host_name() -> Option<String> {
    sysinfo::System::host_name()
}

/// Relies on sysinfo::System::uptime: seconds since boot.
#[verifier::external_body]
pub(crate) fn sys_uptime() -> u64 {
    sysinfo::System::uptime()
}

/// Relies on sysinfo::System::boot_time: the boot timestamp in seconds.
#[verifier::external_body]
pub(crate) fn sys_boot_time() -> u64 {
    sysinfo::System::boot_time()
}

/// Relies on sysinfo::System::cpu_arch: the CPU architecture name.
#[verifier::external_body]
pub(crate) fn sys_cpu_arch() -> String {
    sysinfo::System::cpu_arch()
}

/// Relies on sysinfo::System::physical_core_count, if known.
#[verifier::external_body]
pub(crate) fn sys_physical_core_count() -> Option<usize> {
    sysinfo::System::physical_core_count()
}

/// Relies on sysinfo::System::cpus: the number of logical CPUs in the
/// snapshot.
#[verifier::external_body]
pub(crate) fn cpu_count(sys: &sysinfo::System) -> usize {
    sys.cpus().len()
}

/// Relies on sysinfo::System::cpus and sysinfo::Cpu::brand: the brand string
/// of the first CPU, if the snapshot has any.
#[verifier::external_body]
pub(crate) fn first_cpu_brand(sys: &sysinfo::System) -> Option<String> {
    sys.cpus().first().map(|c| c.brand().to_string())
}

/// Relies on sysinfo::System::cpus and sysinfo::Cpu::frequency: the first
/// CPU's frequency in MHz, 0 when the snapshot has no CPU.
#[verifier::external_body]
pub(crate) fn first_cpu_frequency(sys: &sysinfo::System) -> u64 {
    sys.cpus().first().map(|c| c.frequency()).unwrap_or(0)
}

/// Relies on sysinfo::System::processes: how many processes the snapshot
/// holds.
#[verifier::external_body]
pub(crate) fn process_count(sys: &sysinfo::System) -> usize {
    sys.processes().len()
}

/// The lower-case form of one character, for ASCII letters only.
pub open spec fn lower_u32(c: u32) -> u32 {
    if 65 <= c && c <= 90 {
        (c + 32) as u32
    } else {
        c
    }
}

/// Whether two characters are equal up to ASCII case.
pub open spec fn chars_match_ci(a: char, b: char) -> bool {
    lower_u32(a as u32) == lower_u32(b as u32)
}

/// Whether `pat` occurs in `s` at position `pos`, up to ASCII case.
pub open spec fn matches_at_ci(s: Seq<char>, pat: Seq<char>, pos: int) -> bool {
    forall|j: int| 0 <= j < pat.len() ==> chars_match_ci(s[pos + j], pat[j])
}

/// Whether `pat` occurs anywhere in `s`, up to ASCII case.
pub open spec fn contains_ci(s: Seq<char>, pat: Seq<char>) -> bool {
    exists|pos: int| 0 <= pos && pos + pat.len() <= s.len() && matches_at_ci(s, pat, pos)
}

/// Maps an ASCII upper-case letter to its lower-case form; identity on
/// everything else.
fn lower_u32_exec(c: u32) -> (r: u32)
    ensures
        r == lower_u32(c),
{
    if 65 <= c && c <= 90 {
        c + 32
    } else {
        c
    }
}

/// Whether `pat` occurs in `s`, comparing characters up to ASCII case.
pub fn contains_ci_str(s: &str, pat: &str) -> (r: bool)
    ensures
        r == contains_ci(s@, pat@),
{
    let n = s.unicode_len();
    let m = pat.unicode_len();
    if m > n {
        return false;
    }
    let mut pos: usize = 0;
    while pos <= n - m
        invariant
            m <= n,
            n == s@.len(),
            m == pat@.len(),
            pos <= n - m + 1,
            forall|p: int| 0 <= p < pos ==> !matches_at_ci(s@, pat@, p),
        decreases n - m - pos + 1,
    {
        let mut j: usize = 0;
        let mut all_match = true;
        while j < m
            invariant
                m <= n,
                n == s@.len(),
                m == pat@.len(),
                pos + m <= n,
                j <= m,
                all_match <==> (forall|k: int| 0 <= k < j ==> chars_match_ci(
                    s@[pos + k],
                    pat@[k],
                )),
            decreases m - j,
        {
            let a = lower_u32_exec(s.get_char(pos + j) as u32);
            let b = lower_u32_exec(pat.get_char(j) as u32);
            if a != b {
                all_match = false;
                proof {
                    assert(!chars_match_ci(s@[pos + j], pat@[j as int]));
                }
                j = m;
            } else {
                j = j + 1;
            }
        }
        if all_match {
            proof {
                assert(matches_at_ci(s@, pat@, pos as int));
            }
            return true;
        }
        pos = pos + 1;
    }
    false
}

/// The vendor named by a brand string: the first of "intel", "amd", "apple"
/// that occurs in it (case-insensitively), otherwise "Unknown".
pub open spec fn vendor_of_spec(brand: Seq<char>) -> Seq<char> {
    if contains_ci(brand, "intel"@) {
        "Intel"@
    } else if contains_ci(brand, "amd"@) {
        "AMD"@
    } else if contains_ci(brand, "apple"@) {
        "Apple"@
    } else {
        "Unknown"@
    }
}

/// Picks the CPU vendor from the brand string by the first-of
/// intel/amd/apple rule.
pub fn detect_vendor(brand: &str) -> (r: String)
    ensures
        r@ == vendor_of_spec(brand@),
{
    if contains_ci_str(brand, "intel") {
        "Intel".to_string()
    } else if contains_ci_str(brand, "amd") {
        "AMD".to_string()
    } else if contains_ci_str(brand, "apple") {
        "Apple".to_string()
    } else {
        "Unknown".to_string()
    }
}

/// Infers a volume's storage type from its device name and mount point:
/// "nvme" anywhere means NVMe, otherwise "ssd" means SSD, otherwise "hdd" or
/// "hard" in the name means HDD; anything else is unknown.
pub fn determine_storage_type(name: &str, mount_point: &str) -> (r: StorageType)
    ensures
        (contains_ci(name@, "nvme"@) || contains_ci(mount_point@, "nvme"@)) ==> r
            == StorageType::NVMe,
        !(contains_ci(name@, "nvme"@) || contains_ci(mount_point@, "nvme"@)) && (contains_ci(
            name@,
            "ssd"@,
        ) || contains_ci(mount_point@, "ssd"@)) ==> r == StorageType::SSD,
        !(contains_ci(name@, "nvme"@) || contains_ci(mount_point@, "nvme"@)) && !(contains_ci(
            name@,
            "ssd"@,
        ) || contains_ci(mount_point@, "ssd"@)) && (contains_ci(name@, "hdd"@) || contains_ci(
            name@,
            "hard"@,
        )) ==> r == StorageType::HDD,
        !(contains_ci(name@, "nvme"@) || contains_ci(mount_point@, "nvme"@)) && !(contains_ci(
            name@,
            "ssd"@,
        ) || contains_ci(mount_point@, "ssd"@)) && !(contains_ci(name@, "hdd"@) || contains_ci(
            name@,
            "hard"@,
        )) ==> r == StorageType::Unknown,
{
    if contains_ci_str(name, "nvme") || contains_ci_str(mount_point, "nvme") {
        StorageType::NVMe
    } else if contains_ci_str(name, "ssd") || contains_ci_str(mount_point, "ssd") {
        StorageType::SSD
    } else if contains_ci_str(name, "hdd") || contains_ci_str(name, "hard") {
        StorageType::HDD
    } else {
        StorageType::Unknown
    }
}

/// Bytes per gigabyte.
pub const BYTES_PER_GIGABYTE: u64 = 1_073_741_824;

/// Derives the memory descriptor from the provider's byte counts. Used
/// memory is what is not available, floored at zero; figures are reported in
/// whole gigabytes; what the provider cannot know defaults to zero or
/// "Unknown".
pub fn memory_info_from(total_bytes: u64, available_bytes: u64) -> (r: MemoryInfo)
    ensures
        r.total == total_bytes / BYTES_PER_GIGABYTE,
        r.available == available_bytes / BYTES_PER_GIGABYTE,
        r.used == (if available_bytes <= total_bytes {
            ((total_bytes - available_bytes) as u64) / BYTES_PER_GIGABYTE
        } else {
            0u64
        }),
        r.used <= r.total,
        r.memory_type@ == "Unknown"@,
        r.speed == 0,
        r.slots_used == 0,
        r.slots_total == 0,
{
    let used_bytes = total_bytes.saturating_sub(available_bytes);
    proof {
        vstd::arithmetic::div_mod::lemma_div_is_ordered(
            used_bytes as int,
            total_bytes as int,
            BYTES_PER_GIGABYTE as int,
        );
    }
    MemoryInfo {
        total: total_bytes / BYTES_PER_GIGABYTE,
        available: available_bytes / BYTES_PER_GIGABYTE,
        used: used_bytes / BYTES_PER_GIGABYTE,
        memory_type: "Unknown".to_string(),
        speed: 0,
        slots_used: 0,
        slots_total: 0,
    }
}

/// Assembles the CPU descriptor from the provider's facts. Fails exactly
/// when the snapshot shows no CPU at all (no brand string).
pub fn cpu_info_from(
    brand: Option<String>,
    threads: usize,
    physical_cores: Option<usize>,
    frequency: u64,
    architecture: String,
) -> (r: Result<CpuInfo, BenchmarkError>)
    ensures
        r is Ok <==> brand is Some,
        r matches Ok(info) ==> {
            &&& info.name == brand->0
            &&& info.vendor@ == vendor_of_spec(brand->0@)
            &&& info.threads == threads
            &&& info.cores == (if physical_cores is Some {
                physical_cores->0
            } else {
                0usize
            })
            &&& info.base_frequency == frequency
            &&& info.max_frequency == frequency
            &&& info.architecture == architecture
            &&& info.cache_info.l1_data is None
            &&& info.cache_info.l1_instruction is None
            &&& info.cache_info.l2 is None
            &&& info.cache_info.l3 is None
        },
        r matches Err(e) ==> e matches BenchmarkError::SystemInfoError(_),
{
    match brand {
        Some(name) => {
            let vendor = detect_vendor(name.as_str());
            let cores = match physical_cores {
                Some(c) => c,
                None => 0,
            };
            Ok(
                CpuInfo {
                    name,
                    vendor,
                    cores,
                    threads,
                    base_frequency: frequency,
                    max_frequency: frequency,
                    architecture,
                    cache_info: CacheInfo {
                        l1_data: None,
                        l1_instruction: None,
                        l2: None,
                        l3: None,
                    },
                },
            )
        },
        None => Err(BenchmarkError::SystemInfoError("无法获取CPU信息".to_string())),
    }
}

/// The placeholder volume list reported while the provider exposes no
/// per-volume facts: one unknown primary volume mounted at the root.
pub fn storage_info_placeholder() -> (r: Vec<StorageInfo>)
    ensures
        r@.len() == 1,
        r@[0].storage_type == StorageType::Unknown,
        r@[0].capacity == 0,
        r@[0].available == 0,
        r@[0].name@ == "Primary Storage"@,
        r@[0].mount_point@ == "/"@,
{
    let mut v: Vec<StorageInfo> = Vec::new();
    v.push(
        StorageInfo {
            name: "Primary Storage".to_string(),
            storage_type: StorageType::Unknown,
            capacity: 0,
            available: 0,
            interface: "Unknown".to_string(),
            file_system: "Unknown".to_string(),
            mount_point: "/".to_string(),
        },
    );
    v
}

/// A provider string, or "Unknown" where the provider has none.
pub fn name_or_unknown(v: Option<String>) -> (r: String)
    ensures
        v matches Some(s) ==> r == s,
        v is None ==> r@ == "Unknown"@,
{
    match v {
        Some(s) => s,
        None => "Unknown".to_string(),
    }
}

/// Collects a fresh snapshot of the host's facts. Fails exactly when the
/// provider reports no CPU.
pub fn collect_system_info() -> (r: Result<SystemInfo, BenchmarkError>)
    ensures
        r matches Ok(info) ==> {
            &&& info.os@.len() > 0
            &&& info.memory.used <= info.memory.total
            &&& info.storage@.len() == 1
            &&& info.cpu.cache_info.l3 is None
        },
        r matches Err(e) ==> e matches BenchmarkError::SystemInfoError(_),
{
    let mut sys = system_new_all();
    refresh_all(&mut sys);

    let mut os = name_or_unknown(sys_os_name());
    os.append(" ");
    let version = name_or_unknown(sys_os_version());
    os.append(version.as_str());
    proof {
        // The separator alone makes the OS string non-empty.
        reveal_strlit(" ");
        assert(" "@.len() == 1);
    }

    let brand = first_cpu_brand(&sys);
    let threads = cpu_count(&sys);
    let cpu = match cpu_info_from(
        brand,
        threads,
        sys_physical_core_count(),
        first_cpu_frequency(&sys),
        sys_cpu_arch(),
    ) {
        Ok(c) => c,
        Err(e) => {
            return Err(e);
        },
    };

    let memory = memory_info_from(total_memory(&sys), available_memory(&sys));
    let storage = storage_info_placeholder();
    let system_details = SystemDetails {
        hostname: name_or_unknown(sys_host_name()),
        uptime: sys_uptime(),
        boot_time: sys_boot_time(),
        kernel_version: name_or_unknown(sys_kernel_version()),
        total_processes: process_count(&sys),
        temperatures: Vec::new(),
    };

    Ok(SystemInfo { os, cpu, memory, storage, system_details })
}

} // verus!
