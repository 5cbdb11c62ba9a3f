//! The temperature and fan modules on sensor readings.

use rustwhy::framework::{MetricValue, ModuleConfig, Severity};
use rustwhy::modules::fan::{self, FanLimit, FanProbe};
use rustwhy::modules::hwmon::{read_inputs, SensorChip, SensorFile};
use rustwhy::modules::temp::{self, degrees, TempProbe, ThermalZone};

fn file(name: &str, content: &str) -> SensorFile {
    SensorFile { name: name.to_string(), content: Some(content.to_string()) }
}

fn chip(dir: &str, name: Option<&str>, files: Vec<SensorFile>) -> SensorChip {
    SensorChip { dir_name: dir.to_string(), name: name.map(|n| format!("{}\n", n)), files }
}

fn zone(dir: &str, kind: Option<&str>, temp: Option<&str>) -> ThermalZone {
    ThermalZone {
        dir_name: dir.to_string(),
        kind: kind.map(|k| format!("{}\n", k)),
        temp: temp.map(|t| format!("{}\n", t)),
    }
}

fn sample_chips() -> Vec<SensorChip> {
    vec![
        chip(
            "hwmon0",
            Some("coretemp"),
            vec![
                file("temp1_input", "91000\n"),
                file("temp1_label", "Package id 0\n"),
                file("temp2_input", "85999\n"),
                file("fan1_input", "1200\n"),
                file("temp3_input", "garbage\n"),
                SensorFile { name: "temp4_input".to_string(), content: None },
            ],
        ),
        chip("hwmon1", None, vec![file("fan2_input", " 4200 \n"), file("fan3_input", "0\n")]),
    ]
}

#[test]
fn millidegrees_are_rounded_toward_zero() {
    assert_eq!(degrees("45000"), Some(45));
    assert_eq!(degrees(" 45999 \n"), Some(45));
    assert_eq!(degrees("-5999"), Some(-5));
    assert_eq!(degrees("2147483647"), Some(2147483));
    assert_eq!(degrees("2147483648"), None);
    assert_eq!(degrees("-2147483648"), Some(-2147483));
    assert_eq!(degrees("warm"), None);
}

#[test]
fn sensor_inputs_are_labelled_by_chip_and_file() {
    let temps = read_inputs(&sample_chips(), "temp");
    assert_eq!(
        temps,
        vec![
            ("coretemp temp1".to_string(), "91000".to_string()),
            ("coretemp temp2".to_string(), "85999".to_string()),
            ("coretemp temp3".to_string(), "garbage".to_string()),
        ]
    );
    let fans = read_inputs(&sample_chips(), "fan");
    assert_eq!(
        fans,
        vec![
            ("coretemp fan1".to_string(), "1200".to_string()),
            ("hwmon1 fan2".to_string(), " 4200 ".to_string()),
            ("hwmon1 fan3".to_string(), "0".to_string()),
        ]
    );
}

#[test]
fn host_without_temperature_sensors_gets_an_info_finding() {
    let probe = TempProbe { zones: vec![zone("thermal_zone0", Some("acpitz"), None)], chips: vec![] };
    let r = temp::report(&probe, &ModuleConfig::default());
    assert_eq!(r.module, "temp");
    assert_eq!(r.findings.len(), 1);
    assert_eq!(r.findings[0].severity, Severity::Info);
    assert_eq!(
        r.findings[0].message,
        "No temperature sensors found (/sys/class/thermal, /sys/class/hwmon)."
    );
    assert_eq!(r.overall_severity, Severity::Info);
    assert_eq!(r.summary, "Temperature analysis");
    assert!(r.metrics.is_empty());
    assert!(r.recommendations.is_empty());
}

#[test]
fn temperatures_are_graded_at_80_and_90_degrees() {
    let probe = TempProbe {
        zones: vec![
            zone("thermal_zone0", Some("acpitz"), Some("45000")),
            zone("thermal_zone1", None, Some("80000")),
        ],
        chips: sample_chips(),
    };
    let r = temp::report(&probe, &ModuleConfig::default());
    let names: Vec<&str> = r.metrics.iter().map(|m| m.name.as_str()).collect();
    assert_eq!(names, vec!["acpitz", "thermal_zone1", "coretemp temp1", "coretemp temp2"]);
    assert!(matches!(r.metrics[0].value, MetricValue::Integer(45)));
    assert!(matches!(r.metrics[3].value, MetricValue::Integer(85)));
    assert_eq!(r.metrics[0].unit.as_deref(), Some("°C"));
    let threshold = r.metrics[0].threshold.unwrap();
    assert_eq!(f64::from_bits(threshold.warning.bits), 80.0);
    assert_eq!(f64::from_bits(threshold.critical.bits), 90.0);
    let found: Vec<(Severity, &str)> =
        r.findings.iter().map(|f| (f.severity, f.message.as_str())).collect();
    assert_eq!(
        found,
        vec![
            (Severity::Warning, "thermal_zone1 at 80°C – high temperature"),
            (Severity::Critical, "coretemp temp1 at 91°C – thermal throttling risk"),
            (Severity::Warning, "coretemp temp2 at 85°C – high temperature"),
        ]
    );
    assert_eq!(r.findings[0].details, None);
    assert_eq!(r.findings[1].details.as_deref(), Some("Improve cooling or reduce load."));
    assert_eq!(r.overall_severity, Severity::Critical);
    assert_eq!(r.recommendations.len(), 1);
    assert_eq!(r.recommendations[0].priority, 1);
    assert_eq!(r.recommendations[0].command.as_deref(), Some("sensors"));
    assert_eq!(r.summary, "Temperature analysis");
}

#[test]
fn only_critical_temperatures_where_asked() {
    let probe = TempProbe {
        zones: vec![zone("z0", Some("cpu"), Some("85000")), zone("z1", Some("gpu"), Some("95000"))],
        chips: vec![],
    };
    let mut config = ModuleConfig::default();
    config.set_extra("critical", "true");
    let r = temp::report(&probe, &config);
    assert_eq!(r.metrics.len(), 1);
    assert_eq!(r.metrics[0].name, "gpu");
    assert_eq!(r.findings.len(), 1);
    assert_eq!(r.findings[0].severity, Severity::Critical);
}

#[test]
fn cool_host_has_normal_temperatures() {
    let probe = TempProbe { zones: vec![zone("z0", Some("cpu"), Some("40000"))], chips: vec![] };
    let r = temp::report(&probe, &ModuleConfig::default());
    assert!(r.findings.is_empty());
    assert_eq!(r.summary, "Temperatures within normal range.");
    assert_eq!(r.overall_severity, Severity::Okay);
    assert!(r.recommendations.is_empty());
}

#[test]
fn host_without_fans_gets_an_info_finding() {
    let probe = FanProbe { chips: vec![chip("hwmon0", Some("nvme"), vec![file("temp1_input", "1\n")])], limit: None };
    let r = fan::report(&probe, &ModuleConfig::default());
    assert_eq!(r.module, "fan");
    assert_eq!(r.findings.len(), 1);
    assert_eq!(r.findings[0].severity, Severity::Info);
    assert_eq!(r.findings[0].message, "No fan sensors found under /sys/class/hwmon.");
    assert_eq!(
        r.findings[0].details.as_deref(),
        Some("Some laptops expose fans via ACPI or other interfaces.")
    );
    assert_eq!(r.overall_severity, Severity::Info);
    assert_eq!(r.summary, "Fan diagnostics");
}

#[test]
fn fans_are_listed_with_their_speed() {
    let probe = FanProbe { chips: sample_chips(), limit: None };
    let r = fan::report(&probe, &ModuleConfig::default());
    let speeds: Vec<(&str, i64)> = r
        .metrics
        .iter()
        .map(|m| match m.value {
            MetricValue::Integer(n) => (m.name.as_str(), n),
            _ => panic!("fan speed is an integer"),
        })
        .collect();
    assert_eq!(speeds, vec![("coretemp fan1", 1200), ("hwmon1 fan2", 4200), ("hwmon1 fan3", 0)]);
    assert_eq!(r.metrics[0].unit.as_deref(), Some("RPM"));
    assert!(r.findings.is_empty());
    assert_eq!(r.summary, "Fan speeds within normal range.");
    assert_eq!(r.overall_severity, Severity::Okay);
    assert_eq!(fan::read_hwmon_fans(&sample_chips()).len(), 3);
}

#[test]
fn fans_above_the_limit_are_noted() {
    let probe = FanProbe {
        chips: sample_chips(),
        limit: Some(FanLimit { rpm: 4000, text: "40".to_string() }),
    };
    let r = fan::report(&probe, &ModuleConfig::default());
    assert_eq!(r.findings.len(), 1);
    assert_eq!(r.findings[0].severity, Severity::Info);
    assert_eq!(r.findings[0].category, "fan");
    assert_eq!(
        r.findings[0].message,
        "hwmon1 fan2 running at 4200 RPM (above 40Â°C threshold)"
    );
    assert_eq!(r.summary, "Fan diagnostics");
    assert_eq!(r.overall_severity, Severity::Info);
    let mut config = ModuleConfig::default();
    assert_eq!(fan::threshold_text(&config), None);
    config.set_extra("threshold", "40");
    assert_eq!(fan::threshold_text(&config).as_deref(), Some("40"));
}
