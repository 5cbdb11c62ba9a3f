//! The network, USB, boot and sleep modules on what commands printed.

use rustwhy::framework::{
    run_module, DiagnosticModule, FloatBits, MetricValue, ModuleConfig, ModuleError, Reading,
    Severity,
};
use rustwhy::modules::boot::{
    self, blamed_millis_text, blamed_service, total_text, BlameLine, BootProbe,
};
use rustwhy::modules::net::{self, dns_name, ping_times, target_host, NetProbe, PingOutcome};
use rustwhy::modules::sleep::{self, SleepProbe};
use rustwhy::modules::usb::{self, count_numbered, usb_problems, UsbProbe};
use rustwhy::utils::split::nonblank_lines;
use rustwhy::utils::pattern::capture;

fn shown(value: f64, text: &str) -> Reading {
    Reading { value: FloatBits::new(value.to_bits()), text: text.to_string() }
}

const PING: &str = "PING 8.8.8.8 (8.8.8.8) 56(84) bytes of data.\n64 bytes from 8.8.8.8: icmp_seq=1 ttl=117 time=12.3 ms\n64 bytes from 8.8.8.8: icmp_seq=2 ttl=117 time=9 ms\n64 bytes from 8.8.8.8: icmp_seq=3 ttl=117 time<1 ms\n\n--- 8.8.8.8 ping statistics ---\nrtt min/avg/max time=end";

const NET_DEV: &str = "Inter-|   Receive                                                |  Transmit\n face |bytes    packets errs drop fifo frame compressed multicast|bytes    packets errs drop fifo colls carrier compressed\n    lo: 1000 10 0 0 0 0 0 0 1000 10 0 0 0 0 0 0\n  eth0: 5000 50 0 0 0 0 0 0 7000 70 0 0 0 0 0 0\n wlan0: 0 0 0 0 0 0 0 0 0 0 0 0 0 0 0 0\n short: 1 2\n";

#[test]
fn regular_expressions_capture_groups() {
    assert_eq!(capture("(\\d+)\\s*s", "took 42 s", 1).as_deref(), Some("42"));
    assert_eq!(capture("(\\d+)\\s*s", "took 42 s", 0).as_deref(), Some("42 s"));
    assert_eq!(capture("(\\d+)\\s*s", "no number", 1), None);
    assert_eq!(capture("(\\d+)\\s*s", "took 42 s", 2), None);
    assert_eq!(capture("(a)|(b)", "b", 1), None);
    assert_eq!(capture("(a)|(b)", "b", 2).as_deref(), Some("b"));
    assert_eq!(capture("(unclosed", "text", 0), None);
}

#[test]
fn ping_times_are_found_in_the_output() {
    assert_eq!(ping_times(PING), vec!["12.3", "9", "end"]);
    assert_eq!(ping_times(""), Vec::<String>::new());
    assert_eq!(ping_times("time="), vec![""]);
}

#[test]
fn addresses_are_resolved_as_google() {
    assert_eq!(dns_name("8.8.8.8"), "google.com");
    assert_eq!(dns_name(""), "google.com");
    assert_eq!(dns_name("example.org"), "example.org");
    assert_eq!(dns_name("10.0.0.x"), "10.0.0.x");
    let mut config = ModuleConfig::default();
    assert_eq!(target_host(&config), "8.8.8.8");
    config.set_extra("host", "example.org");
    assert_eq!(target_host(&config), "example.org");
}

#[test]
fn slow_network_gets_a_warning() {
    let probe = NetProbe {
        ping: Some(PingOutcome {
            stdout: PING.to_string(),
            success: true,
            average: Some(shown(250.4, "250")),
        }),
        getent: Some("142.250.1.1 google.com\nsecond\n".to_string()),
        host_lookup_ok: false,
        net_dev: Some(NET_DEV.to_string()),
    };
    let r = net::report(&probe, &ModuleConfig::default());
    assert_eq!(r.module, "net");
    let names: Vec<&str> = r.metrics.iter().map(|m| m.name.as_str()).collect();
    assert_eq!(names, vec!["Target host", "Ping latency (avg)", "eth0 rx", "eth0 tx"]);
    assert!(matches!(&r.metrics[0].value, MetricValue::Text(t) if t == "8.8.8.8"));
    assert!(matches!(r.metrics[2].value, MetricValue::Integer(5000)));
    assert!(matches!(r.metrics[3].value, MetricValue::Integer(7000)));
    assert_eq!(r.metrics[3].unit.as_deref(), Some("bytes"));
    let found: Vec<(Severity, &str, &str)> = r
        .findings
        .iter()
        .map(|f| (f.severity, f.category.as_str(), f.message.as_str()))
        .collect();
    assert_eq!(
        found,
        vec![
            (Severity::Warning, "latency", "High latency to 8.8.8.8 (250 ms avg)"),
            (Severity::Okay, "dns", "DNS resolution for google.com OK"),
        ]
    );
    assert_eq!(r.findings[1].details.as_deref(), Some("142.250.1.1 google.com"));
    assert_eq!(r.overall_severity, Severity::Warning);
    assert!(r.recommendations.is_empty());
}

#[test]
fn healthy_network_gets_a_recommendation() {
    let probe = NetProbe {
        ping: Some(PingOutcome {
            stdout: PING.to_string(),
            success: true,
            average: Some(shown(200.0, "200")),
        }),
        getent: None,
        host_lookup_ok: true,
        net_dev: None,
    };
    let mut config = ModuleConfig::default();
    config.set_extra("host", "example.org");
    let r = net::report(&probe, &config);
    assert_eq!(r.findings.len(), 1);
    assert_eq!(r.findings[0].message, "DNS resolution for example.org OK");
    assert_eq!(r.findings[0].details, None);
    assert_eq!(r.overall_severity, Severity::Okay);
    assert_eq!(r.recommendations.len(), 1);
    assert_eq!(r.recommendations[0].command.as_deref(), Some("ip addr show"));
}

#[test]
fn missing_tools_are_findings_not_errors() {
    let probe = NetProbe { ping: None, getent: None, host_lookup_ok: false, net_dev: None };
    let r = run_module(&net::module(probe), &ModuleConfig::default()).expect("no error");
    let found: Vec<(Severity, &str)> =
        r.findings.iter().map(|f| (f.severity, f.message.as_str())).collect();
    assert_eq!(
        found,
        vec![
            (Severity::Info, "Could not run ping (command not found or error)."),
            (Severity::Info, "Could not verify DNS (getent/host not available or failed)."),
        ]
    );
    assert_eq!(r.overall_severity, Severity::Info);
    let failed = NetProbe {
        ping: Some(PingOutcome { stdout: String::new(), success: false, average: None }),
        getent: Some("  \n".to_string()),
        host_lookup_ok: true,
        net_dev: None,
    };
    let r = net::report(&failed, &ModuleConfig::default());
    assert_eq!(r.findings.len(), 1);
    assert_eq!(r.findings[0].severity, Severity::Warning);
    assert_eq!(r.findings[0].message, "Ping to 8.8.8.8 failed; host may be unreachable.");
}

#[test]
fn host_without_usb_data_gets_an_info_finding() {
    let probe = UsbProbe { lsusb_found: false, lsusb: None, sysfs_devices: None, dmesg: None };
    let r = usb::report(&probe, &ModuleConfig::default());
    assert_eq!(r.module, "usb");
    assert_eq!(r.findings.len(), 1);
    assert_eq!(r.findings[0].severity, Severity::Info);
    assert_eq!(r.findings[0].message, "No USB devices or lsusb/sysfs data available.");
    assert_eq!(r.overall_severity, Severity::Info);
    assert_eq!(r.recommendations.len(), 1);
}

#[test]
fn usb_devices_are_listed_and_filtered() {
    let lsusb = "Bus 001 Device 001: ID 1d6b:0002 Linux Foundation 2.0 root hub\n\n  Bus 001 Device 004: ID 046d:c52b Logitech, Inc. Unifying Receiver  \nBus 002 Device 002: ID 0781:5581 SanDisk Corp. Ultra\n";
    assert_eq!(nonblank_lines(lsusb).len(), 3);
    let probe = UsbProbe {
        lsusb_found: true,
        lsusb: Some(lsusb.to_string()),
        sysfs_devices: Some(vec!["1-1".to_string()]),
        dmesg: Some("[Mon] usb 1-1: device descriptor read/64, error -71\n[Mon] USB disconnect\n[Mon] eth0: reset\n[Mon] usb 2-1: RESET high-speed\n".to_string()),
    };
    let r = usb::report(&probe, &ModuleConfig::default());
    assert_eq!(r.metrics.len(), 1);
    assert_eq!(r.metrics[0].name, "USB devices (lsusb)");
    assert!(matches!(r.metrics[0].value, MetricValue::Integer(3)));
    assert_eq!(r.findings.len(), 3);
    assert_eq!(
        r.findings[1].message,
        "Bus 001 Device 004: ID 046d:c52b Logitech, Inc. Unifying Receiver"
    );
    assert_eq!(r.overall_severity, Severity::Info);

    let mut config = ModuleConfig::default();
    config.set_extra("device", "LOGITECH");
    config.set_extra("dmesg", "true");
    let picked = usb::report(&probe, &config);
    let found: Vec<(Severity, &str, &str)> = picked
        .findings
        .iter()
        .map(|f| (f.severity, f.category.as_str(), f.message.as_str()))
        .collect();
    assert_eq!(
        found,
        vec![
            (
                Severity::Info,
                "usb",
                "Bus 001 Device 004: ID 046d:c52b Logitech, Inc. Unifying Receiver"
            ),
            (Severity::Warning, "dmesg", "[Mon] usb 1-1: device descriptor read/64, error -71"),
            (Severity::Warning, "dmesg", "[Mon] usb 2-1: RESET high-speed"),
        ]
    );
    assert_eq!(picked.overall_severity, Severity::Warning);
    assert_eq!(usb_problems("usb ok\nUSB FAILure\n"), vec!["USB FAILure"]);
}

#[test]
fn usb_devices_are_counted_in_sysfs_without_lsusb() {
    let names = vec!["1-1".to_string(), "usb1".to_string(), "2-0:1.0".to_string(), "".to_string()];
    assert_eq!(count_numbered(&names), 2);
    let probe = UsbProbe {
        lsusb_found: false,
        lsusb: Some("ignored\n".to_string()),
        sysfs_devices: Some(names),
        dmesg: None,
    };
    let r = usb::report(&probe, &ModuleConfig::default());
    assert_eq!(r.metrics[0].name, "USB devices (sysfs)");
    assert!(matches!(r.metrics[0].value, MetricValue::Integer(2)));
    assert!(r.findings.is_empty());
    assert_eq!(r.overall_severity, Severity::Okay);
}

fn blame(text: &str, millis: f64, secs_text: &str) -> BlameLine {
    BlameLine {
        text: text.to_string(),
        millis: FloatBits::new(millis.to_bits()),
        secs: shown(millis / 1000.0, secs_text),
    }
}

#[test]
fn boot_output_is_taken_apart() {
    let time = Some(
        "Startup finished in 3.5s (kernel) + 12.25s (userspace) = 15.75s\ngraphical.target reached after 12s\n"
            .to_string(),
    );
    assert_eq!(total_text(&time).as_deref(), Some("3.5"));
    assert_eq!(total_text(&Some("nothing here\n".to_string())), None);
    assert_eq!(total_text(&Some("a = b yes\n1s\n".to_string())), None);
    assert_eq!(total_text(&None), None);
    let line = blame("  6500ms NetworkManager-wait-online.service", 6500.0, "6.50");
    assert_eq!(blamed_service(&line).as_deref(), Some("ms NetworkManager-wait-online"));
    assert_eq!(blamed_millis_text(&line.text).as_deref(), Some("6500"));
    assert_eq!(blamed_service(&blame("6500ms dev-sda1.device", 6500.0, "6.50")), None);
    assert_eq!(blamed_millis_text("no number.service"), None);
}

#[test]
fn boot_module_without_systemd() {
    let probe = BootProbe { systemd_found: false, time_output: None, total: None, blame: None };
    let r = boot::report(&probe, &ModuleConfig::default());
    assert_eq!(r.findings.len(), 1);
    assert_eq!(r.findings[0].severity, Severity::Warning);
    assert_eq!(
        r.findings[0].message,
        "systemd-analyze not found; boot analysis requires systemd."
    );
    assert_eq!(r.overall_severity, Severity::Warning);
    let m = boot::module(probe);
    assert!(!m.is_available());
    assert!(matches!(
        run_module(&m, &ModuleConfig::default()),
        Err(ModuleError::Unavailable { module }) if module == "boot"
    ));
}

#[test]
fn slow_boot_and_services_are_reported() {
    let probe = BootProbe {
        systemd_found: true,
        time_output: Some("Startup finished in 5s (kernel) + 30s (userspace) = 35.0s\n".to_string()),
        total: Some(shown(35.0, "35.0")),
        blame: Some(vec![
            blame("  1200 quick.service", 1200.0, "1.20"),
            blame("   900 fast.service", 900.0, "0.90"),
            blame("  9000 slow.service", 9000.0, "9.00"),
            blame("  7000 dev-disk.device", 7000.0, "7.00"),
            blame("  5000 five.service", 5000.0, "5.00"),
        ]),
    };
    let mut config = ModuleConfig::default();
    config.top_n = 2;
    let r = boot::report(&probe, &config);
    assert_eq!(r.module, "boot");
    assert_eq!(r.metrics.len(), 1);
    assert_eq!(r.metrics[0].name, "Total boot time");
    assert_eq!(r.metrics[0].unit.as_deref(), Some("s"));
    let found: Vec<(Severity, &str, &str)> = r
        .findings
        .iter()
        .map(|f| (f.severity, f.category.as_str(), f.message.as_str()))
        .collect();
    assert_eq!(
        found,
        vec![
            (
                Severity::Warning,
                "boot",
                "Boot took 35.0s; consider disabling unnecessary services."
            ),
            (Severity::Warning, "service", "slow took 9.00s to start"),
            (Severity::Info, "service", "five took 5.00s to start"),
        ]
    );
    assert_eq!(
        r.findings[1].details.as_deref(),
        Some("Consider masking or disabling if not needed: systemctl disable slow.service")
    );
    assert_eq!(r.summary, "Boot analysis (systemd)");
    assert!(r.recommendations.is_empty());
    assert_eq!(r.overall_severity, Severity::Warning);
}

#[test]
fn quick_boot_is_normal() {
    let quiet = BootProbe { systemd_found: true, time_output: None, total: Some(shown(99.0, "99.0")), blame: None };
    let r = boot::report(&quiet, &ModuleConfig::default());
    assert!(r.findings.is_empty());
    assert!(r.metrics.is_empty());
    assert_eq!(r.summary, "Boot time within normal range; no slow services reported.");
    assert!(r.recommendations.is_empty());
    let timed = BootProbe {
        systemd_found: true,
        time_output: Some("Startup finished in 2s (kernel) + 8s (userspace) = 10.0s\n".to_string()),
        total: Some(shown(10.0, "10.0")),
        blame: Some(vec![]),
    };
    let r = boot::report(&timed, &ModuleConfig::default());
    assert_eq!(r.metrics.len(), 1);
    assert_eq!(r.summary, "Boot analysis (systemd)");
    assert_eq!(r.recommendations.len(), 1);
    assert_eq!(r.recommendations[0].priority, 2);
    assert_eq!(r.overall_severity, Severity::Okay);
}

#[test]
fn host_without_sleep_data_gets_an_info_finding() {
    let r = sleep::report(&SleepProbe { inhibitors: None, wakeup_count: None }, &ModuleConfig::default());
    assert_eq!(r.module, "sleep");
    assert_eq!(r.findings.len(), 1);
    assert_eq!(r.findings[0].severity, Severity::Info);
    assert_eq!(
        r.findings[0].message,
        "No inhibitor or wakeup data available (systemd-inhibit or /sys/power)."
    );
    assert_eq!(r.recommendations.len(), 1);
    assert_eq!(r.overall_severity, Severity::Info);
}

#[test]
fn inhibitors_are_listed() {
    let out = "WHO   UID  USER  PID  COMM  WHAT  WHY  MODE\nvlc   1000 me    1    vlc   sleep playing block\n  ssh 1000 me    2    sshd  sleep session block  \ncups  0    root  3    cupsd sleep printing delay\n\n3 inhibitors listed.\n";
    let probe = SleepProbe { inhibitors: Some(out.to_string()), wakeup_count: Some("17\n".to_string()) };
    let r = sleep::report(&probe, &ModuleConfig::default());
    let metrics: Vec<(&str, i64)> = r
        .metrics
        .iter()
        .map(|m| match m.value {
            MetricValue::Integer(n) => (m.name.as_str(), n),
            _ => panic!("counts are integers"),
        })
        .collect();
    assert_eq!(metrics, vec![("Active inhibitors", 5), ("Wakeup count", 17)]);
    assert_eq!(r.findings.len(), 5);
    assert_eq!(r.findings[2].message, "Inhibitor: ssh 1000 me    2    sshd  sleep session block");
    assert_eq!(r.findings[2].category, "inhibit");
    let priorities: Vec<u8> = r.recommendations.iter().map(|x| x.priority).collect();
    assert_eq!(priorities, vec![2, 3]);
    assert_eq!(r.overall_severity, Severity::Info);

    let mut config = ModuleConfig::default();
    config.set_extra("inhibitors", "false");
    let skipped = sleep::report(&probe, &config);
    assert_eq!(skipped.metrics.len(), 1);
    assert!(skipped.findings.is_empty());
    assert_eq!(skipped.overall_severity, Severity::Okay);
}

#[test]
fn no_inhibitors_is_good_news() {
    let probe = SleepProbe {
        inhibitors: Some("No inhibitors.\n".to_string()),
        wakeup_count: Some("many\n".to_string()),
    };
    let r = sleep::report(&probe, &ModuleConfig::default());
    assert_eq!(r.findings.len(), 1);
    assert_eq!(r.findings[0].severity, Severity::Okay);
    assert_eq!(r.findings[0].message, "No sleep inhibitors active.");
    assert!(matches!(r.metrics[0].value, MetricValue::Integer(0)));
    assert_eq!(r.overall_severity, Severity::Okay);
}
