use benchmark_suite::system_info::{
    collect_system_info, contains_ci_str, detect_vendor, determine_storage_type,
    memory_info_from, storage_info_placeholder, StorageType,
};

#[test]
fn test_collect_system_info() {
    let result = collect_system_info();
    assert!(result.is_ok(), "系统信息收集应该成功");

    let system_info = result.unwrap();

    assert!(!system_info.os.is_empty(), "操作系统信息不应为空");
    assert!(!system_info.cpu.name.is_empty(), "CPU名称不应为空");
    assert!(system_info.cpu.cores > 0, "CPU核心数应大于0");
    assert!(system_info.cpu.threads > 0, "CPU线程数应大于0");
    assert!(system_info.memory.total > 0, "内存总量应大于0");
    assert!(
        !system_info.system_details.hostname.is_empty(),
        "主机名不应为空"
    );
}

#[test]
fn test_determine_storage_type() {
    assert!(matches!(
        determine_storage_type("nvme0n1", "/"),
        StorageType::NVMe
    ));
    assert!(matches!(
        determine_storage_type("sda", "/"),
        StorageType::Unknown
    ));
    assert!(matches!(
        determine_storage_type("Samsung SSD", "/"),
        StorageType::SSD
    ));
    assert!(matches!(
        determine_storage_type("WD HDD", "/"),
        StorageType::HDD
    ));
}

#[test]
fn test_cpu_vendor_detection() {
    assert_eq!(detect_vendor("Intel(R) Core(TM) i7"), "Intel");
    assert_eq!(detect_vendor("AMD Ryzen 9"), "AMD");
    assert_eq!(detect_vendor("Apple M2"), "Apple");
    assert_eq!(detect_vendor("Qualcomm Snapdragon"), "Unknown");
    // Case does not matter, and "intel" wins over "amd".
    assert_eq!(detect_vendor("GenuineINTEL"), "Intel");
    assert_eq!(detect_vendor("intel amd hybrid"), "Intel");
}

#[test]
fn test_contains_ci() {
    assert!(contains_ci_str("NVMe0n1", "nvme"));
    assert!(contains_ci_str("nvme", "NVME"));
    assert!(!contains_ci_str("sata", "nvme"));
    assert!(contains_ci_str("anything", ""));
    assert!(!contains_ci_str("", "x"));
}

#[test]
fn test_memory_calculations() {
    let gb = 1_073_741_824u64;
    let memory_info = memory_info_from(16 * gb, 6 * gb);

    assert_eq!(memory_info.total, 16);
    assert_eq!(memory_info.available, 6);
    assert_eq!(memory_info.used, 10);
    assert!(memory_info.used <= memory_info.total, "已使用内存不应超过总内存");
    assert!(
        memory_info.available <= memory_info.total,
        "可用内存不应超过总内存"
    );
}

#[test]
fn test_storage_info_completeness() {
    let storage_info = storage_info_placeholder();

    assert!(!storage_info.is_empty(), "存储信息不应为空");
    for storage in storage_info {
        assert!(!storage.name.is_empty(), "存储设备名称不应为空");
        assert!(!storage.mount_point.is_empty(), "挂载点不应为空");
    }
}
