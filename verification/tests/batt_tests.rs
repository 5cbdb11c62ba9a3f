//! The battery module on hosts with and without batteries.

use rustwhy::framework::{
    run_module, DiagnosticModule, MetricValue, ModuleConfig, Severity,
};
use rustwhy::modules::batt::{module, names_battery, report, BattProbe, PowerSupply};

fn supply(name: &str, kind: &str, status: Option<&str>, capacity: Option<&str>) -> PowerSupply {
    PowerSupply {
        name: name.to_string(),
        kind: Some(format!("{}\n", kind)),
        status: status.map(|s| format!("{}\n", s)),
        capacity: capacity.map(|s| format!("{}\n", s)),
        energy_now: Some("41230000\n".to_string()),
        power_now: Some("not a number\n".to_string()),
    }
}

#[test]
fn host_without_power_supply_class_gets_an_info_finding() {
    let probe = BattProbe { class_present: false, supplies: vec![supply("BAT0", "Battery", None, Some("3"))] };
    let r = report(&probe, &ModuleConfig::default());
    assert_eq!(r.module, "batt");
    assert_eq!(r.summary, "Battery diagnostics");
    assert_eq!(r.findings.len(), 1);
    assert_eq!(r.findings[0].severity, Severity::Info);
    assert_eq!(r.findings[0].category, "batt");
    assert_eq!(r.findings[0].message, "No power_supply class found (desktop or no battery).");
    assert_eq!(r.findings[0].details, None);
    assert_eq!(r.overall_severity, Severity::Info);
    assert!(r.metrics.is_empty());
    assert!(r.recommendations.is_empty());
}

#[test]
fn host_without_battery_gets_an_info_finding_never_an_error() {
    let probe = BattProbe {
        class_present: true,
        supplies: vec![supply("AC", "Mains", Some("online"), Some("5"))],
    };
    let m = module(probe);
    assert!(m.is_available());
    let r = run_module(&m, &ModuleConfig::default()).expect("absent battery is no error");
    assert_eq!(r.findings.len(), 1);
    assert_eq!(r.findings[0].severity, Severity::Info);
    assert_eq!(r.findings[0].message, "No battery device found in /sys/class/power_supply.");
    assert_eq!(
        r.findings[0].details.as_deref(),
        Some("This is normal on desktops or when battery is not exposed.")
    );
    assert!(r.overall_severity == Severity::Okay || r.overall_severity == Severity::Info);
    assert_eq!(r.overall_severity, Severity::Info);
    assert!(r.metrics.is_empty());
    assert_eq!(r.recommendations.len(), 1);
    assert_eq!(r.summary, "Battery diagnostics");
}

#[test]
fn empty_power_supply_class_counts_as_no_battery() {
    let r = report(&BattProbe { class_present: true, supplies: vec![] }, &ModuleConfig::default());
    assert_eq!(r.findings.len(), 1);
    assert_eq!(r.overall_severity, Severity::Info);
}

#[test]
fn low_battery_gets_a_warning() {
    let probe = BattProbe {
        class_present: true,
        supplies: vec![
            supply("AC", "Mains", Some("online"), None),
            supply("BAT0", "Battery", Some("Discharging"), Some(" 5 ")),
        ],
    };
    let r = report(&probe, &ModuleConfig::default());
    assert_eq!(r.metrics.len(), 2);
    assert_eq!(r.metrics[0].name, "BAT0 status");
    assert!(matches!(&r.metrics[0].value, MetricValue::Text(t) if t == "Discharging"));
    assert_eq!(r.metrics[1].name, "BAT0 capacity");
    assert!(matches!(r.metrics[1].value, MetricValue::Integer(5)));
    assert_eq!(r.metrics[1].unit.as_deref(), Some("%"));
    let threshold = r.metrics[1].threshold.expect("capacity has thresholds");
    assert_eq!(f64::from_bits(threshold.warning.bits), 20.0);
    assert_eq!(f64::from_bits(threshold.critical.bits), 10.0);
    assert_eq!(r.findings.len(), 1);
    assert_eq!(r.findings[0].severity, Severity::Warning);
    assert_eq!(r.findings[0].message, "Battery at 5% – very low");
    assert_eq!(r.findings[0].details.as_deref(), Some("Plug in or suspend soon."));
    assert_eq!(r.overall_severity, Severity::Warning);
    assert_eq!(r.summary, "Battery diagnostics");
    assert_eq!(r.recommendations[0].priority, 3);
    assert_eq!(
        r.recommendations[0].command.as_deref(),
        Some("upower -i /org/freedesktop/UPower/devices/battery_BAT0")
    );
}

#[test]
fn charge_at_ten_percent_is_not_low() {
    let probe = BattProbe {
        class_present: true,
        supplies: vec![supply("BAT1", "battery", Some("Full"), Some("10"))],
    };
    let r = report(&probe, &ModuleConfig::default());
    assert!(r.findings.is_empty());
    assert_eq!(r.summary, "Battery status OK.");
    assert_eq!(r.overall_severity, Severity::Okay);
}

#[test]
fn detailed_run_adds_energy_and_power() {
    let probe = BattProbe {
        class_present: true,
        supplies: vec![supply("BAT0", "Li-ion BATTERY pack", Some("Charging"), Some("80"))],
    };
    let mut config = ModuleConfig::default();
    config.set_extra("detailed", "true");
    let r = report(&probe, &config);
    let names: Vec<&str> = r.metrics.iter().map(|m| m.name.as_str()).collect();
    assert_eq!(names, vec!["BAT0 status", "BAT0 capacity", "BAT0 energy_now"]);
    assert!(matches!(r.metrics[2].value, MetricValue::Integer(41230000)));
    assert_eq!(r.metrics[2].unit.as_deref(), Some("µWh"));
    let plain = report(&probe, &ModuleConfig::default());
    assert_eq!(plain.metrics.len(), 2);
}

#[test]
fn battery_is_told_by_its_type_in_any_case() {
    assert!(names_battery(&supply("B", "Battery", None, None)));
    assert!(names_battery(&supply("B", "BATTERY", None, None)));
    assert!(names_battery(&supply("B", "usb-battery", None, None)));
    assert!(!names_battery(&supply("B", "Mains", None, None)));
    let mut untyped = supply("B", "Battery", None, None);
    untyped.kind = None;
    assert!(!names_battery(&untyped));
}
