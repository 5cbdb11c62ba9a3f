//! The memory, disk, I/O, mount and CPU modules on what a host showed.

use rustwhy::framework::{FloatBits, MetricValue, ModuleConfig, Reading, Severity};
use rustwhy::modules::cpu::{self, CpuProbe, ProcessLoad};
use rustwhy::modules::disk::{self, DiskProbe, FileSeen};
use rustwhy::modules::io::{self, read_process_io, IoProbe, ProcessFiles};
use rustwhy::modules::mem::{self, meminfo_value, read_meminfo, MemProbe, ProcessMemory};
use rustwhy::modules::mount::{self, fstab_entries, MountProbe};
use rustwhy::utils::files::FileRead;
use rustwhy::utils::math::add_capped;
use rustwhy::utils::ranking::rank_descending;

fn measured(value: f64, text: &str) -> Reading {
    Reading { value: FloatBits::new(value.to_bits()), text: text.to_string() }
}

fn text_of_metric(value: &MetricValue) -> &str {
    match value {
        MetricValue::Text(t) => t.as_str(),
        other => panic!("expected text, got {:?}", other),
    }
}

const MEMINFO: &str = "MemTotal:       16000000 kB\nMemFree:         1000000 kB\nMemAvailable:    4000000 kB\nBuffers:          500000 kB\nSwapTotal:       2000000 kB\nSwapFree:         500000 kB\nHugePages_Total:       0\nbroken line\n";

#[test]
fn ranking_is_descending_and_stable() {
    assert_eq!(rank_descending(&vec![]), Vec::<usize>::new());
    assert_eq!(rank_descending(&vec![5]), vec![0]);
    assert_eq!(rank_descending(&vec![1, 3, 2]), vec![1, 2, 0]);
    assert_eq!(rank_descending(&vec![2, 7, 2, 9, 7, 2]), vec![3, 1, 4, 0, 2, 5]);
    assert_eq!(rank_descending(&vec![0, u64::MAX, 0]), vec![1, 0, 2]);
    let keys: Vec<u64> = vec![4, 8, 15, 16, 23, 42, 8, 4];
    let mut expected: Vec<usize> = (0..keys.len()).collect();
    expected.sort_by(|a, b| keys[*b].cmp(&keys[*a]));
    assert_eq!(rank_descending(&keys), expected);
}

#[test]
fn meminfo_entries_are_read_by_name() {
    let entries = read_meminfo(MEMINFO);
    assert_eq!(entries.len(), 7);
    assert_eq!(entries[0], ("MemTotal".to_string(), 16000000));
    assert_eq!(meminfo_value(&entries, "MemTotal"), 16000000);
    assert_eq!(meminfo_value(&entries, "SwapFree"), 500000);
    assert_eq!(meminfo_value(&entries, "Cached"), 0);
    let twice = read_meminfo("A: 1\nA: 2\n");
    assert_eq!(meminfo_value(&twice, "A"), 2);
}

#[test]
fn unreadable_meminfo_is_reported_not_raised() {
    let probe = MemProbe {
        meminfo: FileRead::Failed("permission denied".to_string()),
        usage: measured(0.0, "0"),
        swap: measured(0.0, "0"),
        processes: vec![],
    };
    let r = mem::report(&probe, &ModuleConfig::default());
    assert_eq!(r.module, "mem");
    assert_eq!(r.findings.len(), 1);
    assert_eq!(r.findings[0].severity, Severity::Critical);
    assert_eq!(r.findings[0].message, "Cannot read /proc/meminfo");
    assert_eq!(r.findings[0].details.as_deref(), Some("permission denied"));
    assert_eq!(r.overall_severity, Severity::Critical);
    assert!(r.metrics.is_empty());
}

#[test]
fn memory_pressure_and_top_processes() {
    let probe = MemProbe {
        meminfo: FileRead::Content(MEMINFO.to_string()),
        usage: measured(91.5, "91.5"),
        swap: measured(75.0, "75"),
        processes: vec![
            ProcessMemory { pid: 10, name: "small".to_string(), rss: 1024 },
            ProcessMemory { pid: 20, name: "browser".to_string(), rss: 2 * 1_073_741_824 },
            ProcessMemory { pid: 30, name: "editor".to_string(), rss: 500 * 1_048_576 },
            ProcessMemory { pid: 40, name: "edge".to_string(), rss: 50 * 1_048_576 },
        ],
    };
    let mut config = ModuleConfig::default();
    config.top_n = 3;
    let r = mem::report(&probe, &config);
    let names: Vec<&str> = r.metrics.iter().map(|m| m.name.as_str()).collect();
    assert_eq!(names, vec!["Memory total", "Memory used", "Memory usage", "Swap used"]);
    assert_eq!(text_of_metric(&r.metrics[0].value), "15.3 GiB");
    assert_eq!(text_of_metric(&r.metrics[1].value), "11.4 GiB");
    assert_eq!(text_of_metric(&r.metrics[3].value), "1.4 GiB");
    assert!(matches!(r.metrics[2].value, MetricValue::Float(x) if f64::from_bits(x.bits) == 91.5));
    let found: Vec<(Severity, &str, &str)> = r
        .findings
        .iter()
        .map(|f| (f.severity, f.category.as_str(), f.message.as_str()))
        .collect();
    assert_eq!(
        found,
        vec![
            (Severity::Warning, "swap", "High swap usage (75%); system may be under memory pressure."),
            (Severity::Warning, "mem", "Memory usage is very high; OOM risk if load increases."),
            (Severity::Info, "process", "browser (PID 20) uses 2.0 GiB"),
            (Severity::Info, "process", "editor (PID 30) uses 500.0 MiB"),
            (Severity::Info, "process", "edge (PID 40) uses 50.0 MiB"),
        ]
    );
    assert_eq!(r.findings[1].details.as_deref(), Some("Used 11.4 GiB of 15.3 GiB"));
    assert_eq!(r.recommendations.len(), 1);
    assert_eq!(r.recommendations[0].priority, 1);
    assert_eq!(r.overall_severity, Severity::Warning);

    config.top_n = 1;
    config.set_extra("swap", "false");
    let brief = mem::report(&probe, &config);
    assert_eq!(brief.metrics.len(), 3);
    assert_eq!(brief.findings.len(), 2);
    assert_eq!(brief.findings[1].message, "browser (PID 20) uses 2.0 GiB");
}

#[test]
fn calm_memory_has_no_findings() {
    let probe = MemProbe {
        meminfo: FileRead::Content("MemTotal: 100 kB\nMemAvailable: 200 kB\n".to_string()),
        usage: measured(0.0, "0"),
        swap: measured(0.0, "0"),
        processes: vec![],
    };
    let r = mem::report(&probe, &ModuleConfig::default());
    assert!(r.findings.is_empty());
    assert_eq!(r.metrics.len(), 3);
    assert_eq!(text_of_metric(&r.metrics[1].value), "0 B");
    assert!(r.recommendations.is_empty());
    assert_eq!(r.overall_severity, Severity::Okay);
}

#[test]
fn missing_path_is_a_critical_finding() {
    let mut config = ModuleConfig::default();
    config.set_extra("path", "/no/such/dir");
    let r = disk::report(&DiskProbe { path_exists: false, files: vec![] }, &config);
    assert_eq!(r.module, "disk");
    assert_eq!(r.findings.len(), 1);
    assert_eq!(r.findings[0].severity, Severity::Critical);
    assert_eq!(r.findings[0].message, "Path does not exist: /no/such/dir");
    assert_eq!(r.overall_severity, Severity::Critical);
}

#[test]
fn disk_options_have_defaults() {
    let mut config = ModuleConfig::default();
    assert_eq!(disk::target_path(&config), "/");
    assert_eq!(disk::wanted_depth(&config), 3);
    assert_eq!(disk::walk_depth(&config), 3);
    assert_eq!(disk::large_threshold(&config), None);
    config.set_extra("depth", "9");
    config.set_extra("large", "1M");
    assert_eq!(disk::wanted_depth(&config), 9);
    assert_eq!(disk::walk_depth(&config), 5);
    assert_eq!(disk::large_threshold(&config), Some(1_000_000));
    config.set_extra("depth", "deep");
    assert_eq!(disk::wanted_depth(&config), 3);
    assert_eq!(add_capped(u64::MAX, 1), u64::MAX);
    assert_eq!(add_capped(2, 3), 5);
}

#[test]
fn large_files_and_directories_are_ranked() {
    let gib: u64 = 1_073_741_824;
    let file = |path: &str, parent: &str, size: u64| FileSeen {
        path: path.to_string(),
        parent: Some(parent.to_string()),
        size,
    };
    let probe = DiskProbe {
        path_exists: true,
        files: vec![
            file("/data/a.iso", "/data", 30 * gib),
            file("/data/b.log", "/data", 10),
            file("/var/c.img", "/var", 25 * gib),
            file("/tmp/d", "/tmp", 50 * 1_048_576),
            file("/data/e.bin", "/data", 2 * gib),
        ],
    };
    let mut config = ModuleConfig::default();
    config.set_extra("path", "/");
    config.set_extra("large", "1G");
    config.top_n = 2;
    let r = disk::report(&probe, &config);
    assert_eq!(text_of_metric(&r.metrics[0].value), "/");
    assert_eq!(r.metrics[1].name, "Total size (sampled)");
    assert_eq!(text_of_metric(&r.metrics[1].value), "57.0 GiB");
    let found: Vec<(&str, &str)> =
        r.findings.iter().map(|f| (f.category.as_str(), f.message.as_str())).collect();
    assert_eq!(
        found,
        vec![
            ("file", "/data/a.iso – 30.0 GiB"),
            ("file", "/var/c.img – 25.0 GiB"),
            ("directory", "/data uses 32.0 GiB"),
            ("directory", "/var uses 25.0 GiB"),
        ]
    );
    assert_eq!(r.findings[0].details.as_deref(), Some("Consider moving or compressing."));
    assert_eq!(r.findings[2].details, None);
    assert_eq!(r.recommendations.len(), 1);
    assert_eq!(r.overall_severity, Severity::Info);

    config.set_extra("depth", "0");
    let flat = disk::report(&probe, &config);
    assert_eq!(flat.findings.len(), 2);
}

#[test]
fn process_io_file_is_read() {
    assert_eq!(
        read_process_io("rchar: 5\nread_bytes: 100\nwrite_bytes: 7\ncancelled_write_bytes: 0\n"),
        Some((100, 7))
    );
    assert_eq!(read_process_io(""), Some((0, 0)));
    assert_eq!(read_process_io("read_bytes: 5\nread_bytes: 9\n"), Some((9, 0)));
    assert_eq!(read_process_io("read_bytes:\nwrite_bytes: 1\n"), None);
    assert_eq!(read_process_io("write_bytes: many\n"), None);
}

#[test]
fn quiet_host_has_no_io() {
    let r = io::report(&IoProbe { diskstats: None, processes: vec![] }, &ModuleConfig::default());
    assert_eq!(r.module, "io");
    assert_eq!(r.summary, "No significant disk I/O detected.");
    assert!(r.findings.is_empty());
    assert!(r.recommendations.is_empty());
    assert_eq!(r.overall_severity, Severity::Okay);
}

#[test]
fn devices_and_busy_processes_are_reported() {
    let diskstats = "   8       0 sda 100 0 2048 10 50 0 4096 20 0 30 30 0 0 0 0\n   7       0 loop0 5 0 80 0 0 0 0 0 0 0 0 0 0 0 0\n   1       0 ram0 1 0 8 0 0 0 8 0 0 0 0 0 0 0 0\n 259       0 nvme0n1 9 0 0 0 0 0 0 0 0 0 0 0 0 0 0\nshort line\n";
    let proc = |pid: u32, io: Option<&str>, comm: Option<&str>| ProcessFiles {
        pid,
        io: io.map(String::from),
        comm: comm.map(String::from),
    };
    let probe = IoProbe {
        diskstats: Some(diskstats.to_string()),
        processes: vec![
            proc(1, Some("read_bytes: 1000\nwrite_bytes: 0\n"), Some("init\n")),
            proc(2, Some("read_bytes: 20971520\nwrite_bytes: 1048576\n"), Some("backup\n")),
            proc(3, Some("read_bytes: 0\nwrite_bytes: 1073741824\n"), None),
            proc(4, None, Some("hidden\n")),
        ],
    };
    let r = io::report(&probe, &ModuleConfig::default());
    let metrics: Vec<(&str, &str)> =
        r.metrics.iter().map(|m| (m.name.as_str(), text_of_metric(&m.value))).collect();
    assert_eq!(metrics, vec![("sda read", "1.0 MiB"), ("sda write", "2.0 MiB")]);
    let found: Vec<&str> = r.findings.iter().map(|f| f.message.as_str()).collect();
    assert_eq!(
        found,
        vec![
            "pid 3 (PID 3) – read 0 B, write 1.0 GiB",
            "backup (PID 2) – read 20.0 MiB, write 1.0 MiB",
        ]
    );
    assert_eq!(r.summary, "Disk I/O analysis");
    assert_eq!(r.recommendations.len(), 1);
    let mut config = ModuleConfig::default();
    config.set_extra("device", "nvme");
    assert!(io::report(&probe, &config).metrics.is_empty());
}

#[test]
fn unreadable_mounts_are_reported_not_raised() {
    let probe = MountProbe { mounts: FileRead::Failed("gone".to_string()), fstab: None };
    let r = mount::report(&probe, &ModuleConfig::default());
    assert_eq!(r.findings.len(), 1);
    assert_eq!(r.findings[0].severity, Severity::Critical);
    assert_eq!(r.findings[0].message, "Cannot read /proc/mounts");
    assert_eq!(r.findings[0].details.as_deref(), Some("gone"));
    assert!(r.recommendations.is_empty());
}

#[test]
fn mounts_are_counted_and_classified() {
    let mounts = "/dev/sda1 / ext4 rw,relatime 0 0\ntmpfs /run tmpfs ro,nosuid 0 0\n/dev/sr0 /media/cd iso9660 ro,nosuid 0 0\nsrv:/export /mnt/nfs nfs4 rw,vers=4.2 0 0\n/dev/sdb1 /data xfs rw,errors=remount-ro 0 0\nbroken\n";
    let probe = MountProbe {
        mounts: FileRead::Content(mounts.to_string()),
        fstab: Some("# comment\n\nUUID=1 / ext4 defaults 0 1\n  # indented\nUUID=2 /data xfs defaults 0 2\n".to_string()),
    };
    assert_eq!(fstab_entries("# c\n\n a\n"), 1);
    let r = mount::report(&probe, &ModuleConfig::default());
    let metrics: Vec<&str> = r.metrics.iter().map(|m| m.name.as_str()).collect();
    assert_eq!(metrics, vec!["Mount count", "fstab entries"]);
    assert!(matches!(r.metrics[0].value, MetricValue::Integer(5)));
    assert!(matches!(r.metrics[1].value, MetricValue::Integer(2)));
    let found: Vec<(&str, &str)> =
        r.findings.iter().map(|f| (f.category.as_str(), f.message.as_str())).collect();
    assert_eq!(
        found,
        vec![
            ("mount", "Read-only: /dev/sr0 on /media/cd"),
            ("mount", "Read-only: /dev/sdb1 on /data"),
        ]
    );
    assert_eq!(r.summary, "Mount diagnostics");
    assert_eq!(r.recommendations.len(), 1);
    assert_eq!(r.recommendations[0].command.as_deref(), Some("findmnt"));
    assert_eq!(r.overall_severity, Severity::Info);

    let mut config = ModuleConfig::default();
    config.set_extra("mountpoint", "/mnt");
    config.set_extra("nfs", "true");
    config.set_extra("options", "true");
    let picked = mount::report(&probe, &config);
    let names: Vec<&str> = picked.metrics.iter().map(|m| m.name.as_str()).collect();
    assert_eq!(names, vec!["/mnt/nfs", "Mount count", "fstab entries"]);
    assert_eq!(text_of_metric(&picked.metrics[0].value), "rw,vers=4.2");
    assert!(matches!(picked.metrics[1].value, MetricValue::Integer(1)));
    assert_eq!(picked.findings.len(), 1);
    assert_eq!(picked.findings[0].category, "nfs");
    assert_eq!(picked.findings[0].message, "/mnt/nfs rw,vers=4.2");
    assert_eq!(picked.findings[0].details.as_deref(), Some("Check NFS server and network."));
}

#[test]
fn plain_mounts_look_normal() {
    let probe = MountProbe {
        mounts: FileRead::Content("/dev/sda1 / ext4 rw 0 0\n".to_string()),
        fstab: None,
    };
    let r = mount::report(&probe, &ModuleConfig::default());
    assert!(r.findings.is_empty());
    assert_eq!(r.summary, "Mounts look normal.");
    assert_eq!(r.metrics.len(), 1);
    assert_eq!(r.overall_severity, Severity::Okay);
}

#[test]
fn cpu_report_ranks_processes_by_usage() {
    let load = |pid: u32, name: &str, usage: f64, text: &str, user: Option<&str>| ProcessLoad {
        pid,
        name: name.to_string(),
        usage: measured(usage, text),
        memory: 2_048_000,
        user: user.map(String::from),
    };
    let probe = CpuProbe {
        usage: measured(85.0, "85.0"),
        load_one: "3.10".to_string(),
        load_five: "2.05".to_string(),
        load_fifteen: "1.00".to_string(),
        cores: 8,
        processes: vec![
            load(1, "idle", 0.25, "0.2", Some("0")),
            load(2, "build", 75.5, "75.5", Some("1000")),
            load(3, "shell", 0.5, "0.5", None),
            load(4, "game", 120.0, "120.0", Some("1000")),
        ],
    };
    let r = cpu::report(&probe, &ModuleConfig::default());
    assert_eq!(r.module, "cpu");
    assert_eq!(r.summary, "High CPU utilization detected");
    assert_eq!(text_of_metric(&r.metrics[0].value), "3.10 / 2.05 / 1.00 (1m / 5m / 15m)");
    assert!(matches!(r.metrics[1].value, MetricValue::Float(x) if f64::from_bits(x.bits) == 85.0));
    assert!(matches!(r.metrics[2].value, MetricValue::Integer(8)));
    let found: Vec<(Severity, &str)> =
        r.findings.iter().map(|f| (f.severity, f.message.as_str())).collect();
    assert_eq!(
        found,
        vec![
            (Severity::Warning, "game (PID 4) consuming 120.0% CPU"),
            (Severity::Warning, "build (PID 2) consuming 75.5% CPU"),
            (Severity::Info, "shell (PID 3) consuming 0.5% CPU"),
        ]
    );
    assert_eq!(r.findings[0].details.as_deref(), Some("Memory: 2000 KB, User: 1000"));
    assert_eq!(r.findings[2].details.as_deref(), Some("Memory: 2000 KB, User: ?"));
    assert_eq!(r.recommendations.len(), 1);
    assert_eq!(r.overall_severity, Severity::Warning);

    let mut calm = probe.clone();
    calm.usage = measured(50.5, "50.5");
    calm.processes.clear();
    let moderate = cpu::report(&calm, &ModuleConfig::default());
    assert_eq!(moderate.summary, "Moderate CPU usage");
    assert!(moderate.recommendations.is_empty());
    calm.usage = measured(50.0, "50.0");
    assert_eq!(cpu::report(&calm, &ModuleConfig::default()).summary, "CPU usage within normal range");
}
