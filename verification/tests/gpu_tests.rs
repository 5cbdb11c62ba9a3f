//! The GPU module: vendors, discovery, statistics and the report.

use rustwhy::framework::{
    run_module, DiagnosticModule, MetricValue, ModuleConfig, ModuleError, Reading, Severity,
};
use rustwhy::framework::FloatBits;
use rustwhy::modules::gpu::{
    discover_gpus, find_hwmon_for_device, get_amd_stats, get_intel_stats, get_nvidia_stats,
    module, nvidia_fields, read_sysfs_gpu_name, report, Collected, DrmEntry, GpuDevice, GpuProbe,
    GpuStats, GpuVendor, HwmonFiles,
};

fn reading(value: f64, text: &str) -> Reading {
    Reading { value: FloatBits::new(value.to_bits()), text: text.to_string() }
}

fn no_stats() -> GpuStats {
    GpuStats {
        name: None,
        utilization: None,
        memory_used: None,
        memory_total: None,
        memory_percent: None,
        temperature: None,
        power_usage: None,
        fan_speed: None,
        clock_speed: None,
    }
}

fn device(card: &str, vendor: GpuVendor, stats: Collected) -> GpuDevice {
    GpuDevice { card_name: card.to_string(), vendor, pci_id: "0000:01:00.0".to_string(), stats }
}

fn entry(name: &str, has_device: bool, vendor: Option<&str>, pci: Option<&str>) -> DrmEntry {
    DrmEntry {
        name: name.to_string(),
        has_device,
        vendor: vendor.map(|v| format!("{}\n", v)),
        pci_id: pci.map(String::from),
    }
}

#[test]
fn vendors_are_told_by_their_pci_id() {
    assert!(matches!(GpuVendor::from_vendor_id("0x10de"), GpuVendor::Nvidia));
    assert!(matches!(GpuVendor::from_vendor_id(" 0x10DE\n"), GpuVendor::Nvidia));
    assert!(matches!(GpuVendor::from_vendor_id("10de"), GpuVendor::Nvidia));
    assert!(matches!(GpuVendor::from_vendor_id("0x1002"), GpuVendor::Amd));
    assert!(matches!(GpuVendor::from_vendor_id("0x8086"), GpuVendor::Intel));
    assert!(matches!(GpuVendor::from_vendor_id("0x1234"), GpuVendor::Unknown(id) if id == "0x1234"));
    assert!(matches!(GpuVendor::from_vendor_id(" ABC "), GpuVendor::Unknown(id) if id == " ABC "));
    assert!(matches!(GpuVendor::from_vendor_id("0x10028086"), GpuVendor::Amd));
    assert_eq!(GpuVendor::Nvidia.name(), "NVIDIA");
    assert_eq!(GpuVendor::Amd.name(), "AMD");
    assert_eq!(GpuVendor::Intel.name(), "Intel");
    assert_eq!(GpuVendor::Unknown("x".to_string()).name(), "Unknown");
}

#[test]
fn cards_are_discovered_among_drm_entries() {
    let entries = vec![
        entry("card0", true, Some("0x8086"), Some("0000:00:02.0")),
        entry("card0-HDMI-A-1", true, Some("0x8086"), None),
        entry("renderD128", true, Some("0x8086"), None),
        entry("card1", false, Some("0x10de"), None),
        entry("card2", true, None, None),
        entry("version", true, None, None),
    ];
    let found = discover_gpus(&entries);
    assert_eq!(found.len(), 2);
    assert_eq!(found[0].card_name, "card0");
    assert!(matches!(found[0].vendor, GpuVendor::Intel));
    assert_eq!(found[0].pci_id, "0000:00:02.0");
    assert_eq!(found[1].card_name, "card2");
    assert!(matches!(&found[1].vendor, GpuVendor::Unknown(id) if id == "unknown"));
    assert_eq!(found[1].pci_id, "unknown");
}

#[test]
fn gpu_name_comes_from_uevent_then_device_then_lspci() {
    let uevent = Some("DRIVER=i915\nPCI_SLOT_NAME=0000:00:02.0\nDEVNAME=dri/card0\n".to_string());
    let id = Some("0x3e92".to_string());
    let lspci = Some("00:02.0 VGA compatible controller: Intel Corporation UHD 630".to_string());
    assert_eq!(read_sysfs_gpu_name(&uevent, &id, &lspci).as_deref(), Some("0000:00:02.0"));
    let other = Some("DRIVER=i915\n".to_string());
    assert_eq!(read_sysfs_gpu_name(&other, &id, &lspci).as_deref(), Some("GPU Device 0x3e92"));
    assert_eq!(
        read_sysfs_gpu_name(&None, &None, &lspci).as_deref(),
        Some("Intel Corporation UHD 630")
    );
    assert_eq!(read_sysfs_gpu_name(&None, &None, &Some("no colons".to_string())), None);
    assert_eq!(read_sysfs_gpu_name(&None, &None, &None), None);
    assert_eq!(
        read_sysfs_gpu_name(&Some("DEVNAME=a=b\n".to_string()), &None, &None).as_deref(),
        Some("a")
    );
}

#[test]
fn hwmon_directory_is_the_first_with_that_prefix() {
    let names = vec!["power".to_string(), "hwmon3".to_string(), "hwmon1".to_string()];
    assert_eq!(find_hwmon_for_device(&names), Some(1));
    assert_eq!(find_hwmon_for_device(&vec!["uevent".to_string()]), None);
    assert_eq!(find_hwmon_for_device(&Vec::new()), None);
}

#[test]
fn nvidia_statistics_come_from_the_csv_line() {
    let smi = Some("NVIDIA GeForce RTX 3080, 37, 2048, 10240, 65, 120.50, 45, 1800\n".to_string());
    assert_eq!(
        nvidia_fields(&smi),
        vec!["NVIDIA GeForce RTX 3080", "37", "2048", "10240", "65", "120.50", "45", "1800"]
    );
    let s = get_nvidia_stats(
        &smi,
        Some(reading(37.0, "37.0")),
        Some(reading(120.5, "120.5")),
        Some("fallback".to_string()),
    );
    assert_eq!(s.name.as_deref(), Some("NVIDIA GeForce RTX 3080"));
    assert_eq!(s.utilization.unwrap().text, "37.0");
    assert_eq!(s.memory_used, Some(2048));
    assert_eq!(s.memory_total, Some(10240));
    assert_eq!(s.temperature, Some(65));
    assert_eq!(s.power_usage.unwrap().text, "120.5");
    assert_eq!(s.fan_speed, Some(45));
    assert_eq!(s.clock_speed, Some(1800));
    assert!(s.memory_percent.is_none());

    let partial = get_nvidia_stats(
        &Some("[N/A], [N/A], 12".to_string()),
        Some(reading(1.0, "1.0")),
        Some(reading(2.0, "2.0")),
        Some("fallback".to_string()),
    );
    assert_eq!(partial.name.as_deref(), Some("fallback"));
    assert!(partial.utilization.is_some());
    assert_eq!(partial.memory_used, Some(12));
    assert_eq!(partial.memory_total, None);
    assert!(partial.power_usage.is_none());

    let none = get_nvidia_stats(&None, Some(reading(1.0, "1.0")), None, None);
    assert_eq!(none.name, None);
    assert!(none.utilization.is_none());
    assert_eq!(none.memory_used, None);
}

#[test]
fn amd_statistics_prefer_sysfs_for_temperature() {
    let mut tools = no_stats();
    tools.utilization = Some(reading(12.0, "12.0"));
    tools.temperature = Some(50);
    tools.memory_total = Some(8192);
    let hwmon = Some(HwmonFiles {
        temp1_input: Some("61999".to_string()),
        fan1_input: Some("1500".to_string()),
    });
    let s = get_amd_stats(
        tools.clone(),
        &hwmon,
        Some(reading(30.5, "30.5")),
        &Some("17163091968".to_string()),
        &Some("1073741824".to_string()),
        Some("Radeon".to_string()),
    );
    assert_eq!(s.name.as_deref(), Some("Radeon"));
    assert_eq!(s.temperature, Some(61));
    assert_eq!(s.fan_speed, Some(1500));
    assert_eq!(s.memory_total, Some(8192));
    assert_eq!(s.memory_used, Some(1024));
    assert_eq!(s.power_usage.unwrap().text, "30.5");
    assert_eq!(s.utilization.unwrap().text, "12.0");
    assert_eq!(s.clock_speed, None);

    let bare = get_amd_stats(tools, &None, Some(reading(1.0, "1")), &None, &None, None);
    assert_eq!(bare.temperature, Some(50));
    assert_eq!(bare.fan_speed, None);
    assert!(bare.power_usage.is_none());
    assert_eq!(bare.memory_used, None);
}

#[test]
fn intel_statistics_read_the_clock_from_json() {
    let top = Some(
        "{\"frequency\":{\"requested\":300,\"actual\":1150},\"engines\":{\"Render/3D\":{\"busy\":12.5}}}"
            .to_string(),
    );
    let s = get_intel_stats(&top, Some(reading(12.5, "12.5")), &None, None, Some("UHD".to_string()));
    assert_eq!(s.clock_speed, Some(1150));
    assert_eq!(s.utilization.unwrap().text, "12.5");
    assert_eq!(s.name.as_deref(), Some("UHD"));
    assert_eq!(s.temperature, None);
    let broken = get_intel_stats(&Some("{not json".to_string()), None, &None, None, None);
    assert_eq!(broken.clock_speed, None);
    let negative = get_intel_stats(
        &Some("{\"frequency\":{\"actual\":-5}}".to_string()),
        None,
        &None,
        None,
        None,
    );
    assert_eq!(negative.clock_speed, None);
    let absent = get_intel_stats(&None, Some(reading(1.0, "1.0")), &None, None, None);
    assert!(absent.utilization.is_none());
    assert_eq!(absent.clock_speed, None);
}

#[test]
fn host_without_gpu_gets_an_info_finding() {
    let probe = GpuProbe { drm_present: true, devices: vec![], monitor_tool_found: false };
    let r = report(&probe, &ModuleConfig::default());
    assert_eq!(r.module, "gpu");
    assert_eq!(r.summary, "GPU diagnostics");
    assert_eq!(r.findings.len(), 1);
    assert_eq!(r.findings[0].severity, Severity::Info);
    assert_eq!(r.findings[0].category, "detection");
    assert_eq!(r.findings[0].message, "No GPU devices detected");
    assert_eq!(r.overall_severity, Severity::Info);
    assert!(r.metrics.is_empty());
    assert!(r.recommendations.is_empty());
}

#[test]
fn gpu_module_is_unavailable_without_drm() {
    let m = module(GpuProbe { drm_present: false, devices: vec![], monitor_tool_found: false });
    assert!(!m.is_available());
    assert_eq!(m.name(), "gpu");
    match run_module(&m, &ModuleConfig::default()) {
        Err(ModuleError::Unavailable { module }) => assert_eq!(module, "gpu"),
        other => panic!("expected Unavailable, got {:?}", other),
    }
}

#[test]
fn hot_and_busy_gpu_gets_findings_and_recommendations() {
    let mut stats = no_stats();
    stats.name = Some("RTX 3080".to_string());
    stats.utilization = Some(reading(97.25, "97.2"));
    stats.memory_used = Some(9800);
    stats.memory_total = Some(10240);
    stats.memory_percent = Some(reading(95.703125, "95.7"));
    stats.temperature = Some(86);
    stats.power_usage = Some(reading(300.0, "300"));
    stats.fan_speed = Some(80);
    stats.clock_speed = Some(1900);
    let probe = GpuProbe {
        drm_present: true,
        devices: vec![
            device("card0", GpuVendor::Unknown("0x1234".to_string()), Collected::Stats(no_stats())),
            device("card1", GpuVendor::Nvidia, Collected::Stats(stats)),
            device("card2", GpuVendor::Amd, Collected::Failed("no access".to_string())),
        ],
        monitor_tool_found: true,
    };
    let r = report(&probe, &ModuleConfig::default());
    let names: Vec<&str> = r.metrics.iter().map(|m| m.name.as_str()).collect();
    assert_eq!(
        names,
        vec![
            "GPU Devices Detected",
            "NVIDIA GPU 1 - Name",
            "NVIDIA GPU 1 - Utilization",
            "NVIDIA GPU 1 - Memory Used",
            "NVIDIA GPU 1 - Temperature",
            "NVIDIA GPU 1 - Power Draw",
            "NVIDIA GPU 1 - Fan Speed",
            "NVIDIA GPU 1 - Clock Speed",
        ]
    );
    assert!(matches!(r.metrics[0].value, MetricValue::Integer(3)));
    assert!(matches!(&r.metrics[3].value, MetricValue::Text(t) if t == "9800 MiB / 10240 MiB (95.7%)"));
    assert!(matches!(r.metrics[2].value, MetricValue::Float(x) if f64::from_bits(x.bits) == 97.25));
    let found: Vec<(Severity, &str, &str)> = r
        .findings
        .iter()
        .map(|f| (f.severity, f.category.as_str(), f.message.as_str()))
        .collect();
    assert_eq!(
        found,
        vec![
            (Severity::Info, "detection", "Unknown GPU vendor for card0"),
            (Severity::Warning, "utilization", "NVIDIA GPU 1 is under high load (97.2%)"),
            (Severity::Warning, "memory", "NVIDIA GPU 1 memory is nearly full (95.7%)"),
            (Severity::Critical, "temperature", "NVIDIA GPU 1 is running very hot (86°C)"),
            (Severity::Warning, "stats", "Failed to get stats for AMD GPU 2"),
        ]
    );
    assert_eq!(r.findings[0].details.as_deref(), Some("PCI ID: 0000:01:00.0"));
    assert_eq!(r.findings[2].details.as_deref(), Some("9800 MiB of 10240 MiB used"));
    assert_eq!(r.findings[4].details.as_deref(), Some("Error: no access"));
    assert_eq!(r.overall_severity, Severity::Critical);
    assert_eq!(r.summary, "3 GPU(s) detected with issues");
    let actions: Vec<(u8, &str)> =
        r.recommendations.iter().map(|x| (x.priority, x.action.as_str())).collect();
    assert_eq!(
        actions,
        vec![
            (2, "Identify GPU-intensive processes"),
            (1, "Improve GPU cooling immediately"),
            (2, "Reduce GPU memory usage"),
        ]
    );
    assert_eq!(r.recommendations[0].command, None);
}

#[test]
fn idle_gpu_is_noted_only_in_verbose_runs() {
    let mut stats = no_stats();
    stats.utilization = Some(reading(1.5, "1.5"));
    stats.temperature = Some(75);
    let probe = GpuProbe {
        drm_present: true,
        devices: vec![device("card0", GpuVendor::Intel, Collected::Stats(stats))],
        monitor_tool_found: false,
    };
    let quiet = report(&probe, &ModuleConfig::default());
    assert_eq!(quiet.findings.len(), 1);
    assert_eq!(quiet.findings[0].message, "Intel GPU 0 temperature is elevated (75°C)");
    assert_eq!(quiet.recommendations.len(), 1);
    assert_eq!(quiet.recommendations[0].action, "Improve GPU cooling immediately");
    let mut config = ModuleConfig::default();
    config.verbose = true;
    let verbose = report(&probe, &config);
    assert_eq!(verbose.findings.len(), 2);
    assert_eq!(verbose.findings[0].severity, Severity::Info);
    assert_eq!(verbose.findings[0].message, "Intel GPU 0 is idle (1.5%)");
}

#[test]
fn healthy_gpu_gets_a_monitoring_recommendation() {
    let mut stats = no_stats();
    stats.utilization = Some(reading(40.0, "40.0"));
    let devices = vec![device("card0", GpuVendor::Amd, Collected::Stats(stats))];
    let with_tool =
        report(&GpuProbe { drm_present: true, devices: devices.clone(), monitor_tool_found: true }, &ModuleConfig::default());
    assert_eq!(with_tool.summary, "1 GPU(s) detected and operating normally");
    assert_eq!(with_tool.overall_severity, Severity::Okay);
    assert_eq!(with_tool.recommendations.len(), 1);
    assert_eq!(with_tool.recommendations[0].action, "Monitor AMD GPU in real-time");
    assert_eq!(with_tool.recommendations[0].command.as_deref(), Some("radeontop"));
    let without =
        report(&GpuProbe { drm_present: true, devices, monitor_tool_found: false }, &ModuleConfig::default());
    assert_eq!(without.recommendations[0].action, "Install AMD GPU monitoring tools");
    assert_eq!(
        without.recommendations[0].command.as_deref(),
        Some("# Install: apt-get install radeontop")
    );
    assert_eq!(without.recommendations[0].priority, 3);
}
