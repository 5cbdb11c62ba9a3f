//! The registry of modules, the command line, and runs through the runner.

use rustwhy::cli::{command_to_module_config, all_config, Cli, CliError, Commands, OutputFormat, Shell};
use rustwhy::framework::{
    run_all_modules, run_module, DiagnosticModule, FloatBits, ModuleConfig, ModuleError, Reading,
    Severity,
};
use rustwhy::modules::batt::BattProbe;
use rustwhy::modules::boot::BootProbe;
use rustwhy::modules::cpu::CpuProbe;
use rustwhy::modules::disk::DiskProbe;
use rustwhy::modules::fan::FanProbe;
use rustwhy::modules::gpu::GpuProbe;
use rustwhy::modules::io::IoProbe;
use rustwhy::modules::mem::MemProbe;
use rustwhy::modules::mount::MountProbe;
use rustwhy::modules::net::NetProbe;
use rustwhy::modules::registry::{kind_of, Host, Module, ModuleKind};
use rustwhy::modules::sleep::SleepProbe;
use rustwhy::modules::temp::TempProbe;
use rustwhy::modules::usb::UsbProbe;
use rustwhy::modules::{all_modules, get_module};
use rustwhy::utils::files::FileRead;

const NAMES: [&str; 13] = [
    "boot", "cpu", "mem", "disk", "io", "net", "fan", "temp", "gpu", "batt", "sleep", "usb",
    "mount",
];

fn zero() -> Reading {
    Reading { value: FloatBits::new(0), text: "0.0".to_string() }
}

fn bare_host() -> Host {
    Host {
        boot: BootProbe { systemd_found: false, time_output: None, total: None, blame: None },
        cpu: CpuProbe {
            usage: zero(),
            load_one: "0.00".to_string(),
            load_five: "0.00".to_string(),
            load_fifteen: "0.00".to_string(),
            cores: 1,
            processes: vec![],
        },
        mem: MemProbe {
            meminfo: FileRead::Content("MemTotal: 1000 kB\nMemAvailable: 500 kB\n".to_string()),
            usage: Reading { value: FloatBits::new(50.0f64.to_bits()), text: "50.0".to_string() },
            swap: zero(),
            processes: vec![],
        },
        disk: DiskProbe { path_exists: true, files: vec![] },
        io: IoProbe { diskstats: None, processes: vec![] },
        net: NetProbe { ping: None, getent: None, host_lookup_ok: false, net_dev: None },
        fan: FanProbe { chips: vec![], limit: None },
        temp: TempProbe { zones: vec![], chips: vec![] },
        gpu: GpuProbe { drm_present: false, devices: vec![], monitor_tool_found: false },
        batt: BattProbe { class_present: false, supplies: vec![] },
        sleep: SleepProbe { inhibitors: None, wakeup_count: None },
        usb: UsbProbe { lsusb_found: false, lsusb: None, sysfs_devices: None, dmesg: None },
        mount: MountProbe { mounts: FileRead::Failed("unreadable".to_string()), fstab: None },
    }
}

fn default_config() -> ModuleConfig {
    ModuleConfig {
        verbose: false,
        watch: false,
        interval: 2,
        top_n: 5,
        json_output: false,
        extra_args: Vec::new(),
    }
}

fn cli(command: Commands) -> Cli {
    Cli { command, json: true, verbose: true, no_color: false, quiet: false }
}

#[test]
fn cpu_module_returns_report() {
    let module = get_module("cpu", bare_host()).expect("cpu module exists");
    let config = default_config();
    let report = run_module(&module, &config).expect("run succeeds");
    assert_eq!(report.module, "cpu");
    assert!(!report.summary.is_empty());
}

#[test]
fn boot_module_returns_report() {
    let mut host = bare_host();
    host.boot.systemd_found = true;
    let module = get_module("boot", host).expect("boot module exists");
    let config = default_config();
    let report = run_module(&module, &config).expect("run succeeds");
    assert_eq!(report.module, "boot");
}

#[test]
fn get_module_unknown_returns_none() {
    assert!(get_module("unknown", bare_host()).is_none());
    assert!(get_module("", bare_host()).is_none());
    assert!(get_module("CPU", bare_host()).is_none());
    assert!(get_module("cpu ", bare_host()).is_none());
    assert_eq!(kind_of("unknown"), None);
}

#[test]
fn every_name_finds_the_module_that_bears_it() {
    for name in NAMES {
        let kind = kind_of(name).expect("known name");
        assert_eq!(kind.name(), name);
        let module = get_module(name, bare_host()).expect("known module");
        assert_eq!(module.name(), name);
        assert_eq!(module.kind(), kind);
        assert!(!module.description().is_empty());
        assert!(module.required_permissions().is_empty());
    }
    assert_eq!(kind_of("gpu"), Some(ModuleKind::Gpu));
}

#[test]
fn all_modules_come_in_a_fixed_order() {
    let modules = all_modules(bare_host());
    let names: Vec<&str> = modules.iter().map(|m| m.name()).collect();
    assert_eq!(names, NAMES.to_vec());
    assert!(matches!(modules[0], Module::Boot(_)));
    assert!(matches!(modules[12], Module::Mount(_)));
}

#[test]
fn full_run_keeps_order_and_isolates_unavailable_modules() {
    let modules = all_modules(bare_host());
    let results = run_all_modules(&modules, &default_config());
    assert_eq!(results.len(), 13);
    for (i, result) in results.iter().enumerate() {
        match result {
            Ok(report) => {
                assert_eq!(report.module, NAMES[i]);
                let worst = report
                    .findings
                    .iter()
                    .fold(Severity::Okay, |w, f| w.max(f.severity));
                assert_eq!(report.overall_severity, worst);
            }
            Err(ModuleError::Unavailable { module }) => {
                assert_eq!(module, NAMES[i]);
                assert!(NAMES[i] == "boot" || NAMES[i] == "gpu");
            }
            Err(other) => panic!("no module fails: {:?}", other),
        }
    }
    assert!(results[0].is_err());
    assert!(results[8].is_err());
    assert_eq!(results.iter().filter(|r| r.is_ok()).count(), 11);

    let mut host = bare_host();
    host.boot.systemd_found = true;
    host.gpu.drm_present = true;
    let again = run_all_modules(&all_modules(host), &default_config());
    assert!(again.iter().all(|r| r.is_ok()));
    for i in [1, 2, 3, 4, 5, 6, 7, 9, 10, 11, 12] {
        let a = results[i].as_ref().unwrap();
        let b = again[i].as_ref().unwrap();
        assert_eq!(a.summary, b.summary);
        assert_eq!(a.overall_severity, b.overall_severity);
        assert_eq!(a.findings.len(), b.findings.len());
        assert_eq!(a.metrics.len(), b.metrics.len());
    }
}

#[test]
fn empty_run_yields_nothing() {
    let results = run_all_modules(&Vec::<Module>::new(), &default_config());
    assert!(results.is_empty());
}

#[test]
fn commands_stand_for_a_module_and_its_configuration() {
    let (name, config) =
        command_to_module_config(&cli(Commands::Cpu { watch: true, top: 3, interval: 7, by_user: false }))
            .expect("cpu runs a module");
    assert_eq!(name, "cpu");
    assert!(config.verbose && config.json_output && config.watch);
    assert_eq!((config.top_n, config.interval), (3, 7));
    assert!(config.extra_args.is_empty());

    let (name, config) = command_to_module_config(&cli(Commands::Disk {
        path: None,
        depth: 4,
        old: Some(30),
        large: Some("100M".to_string()),
        hidden: true,
    }))
    .expect("disk runs a module");
    assert_eq!(name, "disk");
    assert_eq!(config.extra("path").as_deref(), Some("/"));
    assert_eq!(config.extra("depth").as_deref(), Some("4"));
    assert_eq!(config.extra("old").as_deref(), Some("30"));
    assert_eq!(config.extra("large").as_deref(), Some("100M"));
    assert_eq!(config.extra("hidden").as_deref(), Some("true"));
    assert_eq!((config.top_n, config.interval, config.watch), (10, 2, false));

    let (name, config) = command_to_module_config(&cli(Commands::Disk {
        path: Some("/var".to_string()),
        depth: 1,
        old: None,
        large: None,
        hidden: false,
    }))
    .unwrap();
    assert_eq!(name, "disk");
    assert_eq!(config.extra("path").as_deref(), Some("/var"));
    assert_eq!(config.extra("old"), None);
    assert_eq!(config.extra("large"), None);
    assert_eq!(config.extra("hidden").as_deref(), Some("false"));

    let (name, config) = command_to_module_config(&cli(Commands::Fan {
        watch: false,
        interval: 2,
        threshold: Some("45.5".to_string()),
        all_sensors: true,
    }))
    .unwrap();
    assert_eq!(name, "fan");
    assert_eq!(config.extra("threshold").as_deref(), Some("45.5"));

    let (name, config) = command_to_module_config(&cli(Commands::Mount {
        mountpoint: Some("/home".to_string()),
        all: false,
        nfs: true,
        check: false,
        options: false,
    }))
    .unwrap();
    assert_eq!(name, "mount");
    assert_eq!(config.extra("mountpoint").as_deref(), Some("/home"));
    assert!(config.flag("nfs", false));
    assert!(!config.flag("options", true));

    let (name, config) = command_to_module_config(&cli(Commands::Net {
        host: "example.org".to_string(),
        full: false,
        dns_only: false,
        count: 5,
        interfaces: false,
    }))
    .unwrap();
    assert_eq!((name.as_str(), config.extra("host").as_deref()), ("net", Some("example.org")));
}

#[test]
fn every_module_command_names_its_module() {
    let commands = vec![
        (Commands::Boot { blame: false, critical: false, time: false, top: 4 }, "boot"),
        (Commands::Mem { detailed: false, swap: false, top: 4, cache: false }, "mem"),
        (Commands::Io { watch: false, device: Some("sda".to_string()), top: 4, interval: 3 }, "io"),
        (Commands::Temp { watch: true, all_sensors: false, critical: true, interval: 9 }, "temp"),
        (Commands::Gpu { watch: false, nvidia: false, amd: false, intel: false, processes: false }, "gpu"),
        (Commands::Batt { watch: false, detailed: true, wakeups: false, history: false }, "batt"),
        (Commands::Sleep { inhibitors: false, wake_sources: false, history: None, test: false }, "sleep"),
        (Commands::Usb { device: None, tree: false, dmesg: true, power: false }, "usb"),
    ];
    for (command, expected) in commands {
        let (name, config) = command_to_module_config(&cli(command)).expect("runs a module");
        assert_eq!(name, expected);
        assert!(kind_of(&name).is_some());
        match expected {
            "boot" | "mem" => assert_eq!(config.top_n, 4),
            "io" => {
                assert_eq!((config.top_n, config.interval), (4, 3));
                assert_eq!(config.extra("device").as_deref(), Some("sda"));
            }
            "temp" => {
                assert!(config.watch && config.flag("critical", false));
                assert_eq!(config.interval, 9);
            }
            "gpu" => assert!(config.extra_args.is_empty()),
            "batt" => assert!(config.flag("detailed", false)),
            "sleep" => assert!(!config.flag("inhibitors", true)),
            "usb" => {
                assert!(config.flag("dmesg", false));
                assert_eq!(config.extra("device"), None);
            }
            _ => unreachable!(),
        }
    }
}

#[test]
fn all_and_completions_run_no_single_module() {
    let all = cli(Commands::All { quick: false, format: OutputFormat::Terminal });
    assert_eq!(command_to_module_config(&all).unwrap_err(), CliError::NotAModule);
    let completions = cli(Commands::Completions { shell: Shell::Bash });
    assert_eq!(command_to_module_config(&completions).unwrap_err(), CliError::NotAModule);
    let config = all_config(&all);
    assert!(config.verbose && config.json_output && !config.watch);
    assert_eq!((config.interval, config.top_n), (2, 10));
}
