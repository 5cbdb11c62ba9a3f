//! The runner's availability gate and per-module isolation, on test doubles.

use rustwhy::framework::{
    run_all_modules, run_module, split_outcomes, DiagnosticModule, DiagnosticReport,
    ExecutionError, Finding, ModuleConfig, ModuleError, Permission, Severity,
};
use std::sync::atomic::{AtomicUsize, Ordering};

struct Double {
    name: &'static str,
    available: bool,
    fails: bool,
    runs: AtomicUsize,
}

impl Double {
    fn new(name: &'static str, available: bool, fails: bool) -> Double {
        Double { name, available, fails, runs: AtomicUsize::new(0) }
    }
}

impl DiagnosticModule for Double {
    fn name(&self) -> &'static str {
        self.name
    }

    fn description(&self) -> &'static str {
        "test double"
    }

    fn required_permissions(&self) -> Vec<Permission> {
        Vec::new()
    }

    fn is_available(&self) -> bool {
        self.available
    }

    fn run(&self, _config: &ModuleConfig) -> Result<DiagnosticReport, ExecutionError> {
        self.runs.fetch_add(1, Ordering::SeqCst);
        if self.fails {
            return Err(ExecutionError { module: self.name.to_string(), cause: "boom".to_string() });
        }
        let mut report = DiagnosticReport::new(self.name, "double ran");
        report.add_finding(Finding {
            severity: Severity::Info,
            category: "double".to_string(),
            message: "ran".to_string(),
            details: None,
        });
        Ok(report)
    }
}

#[test]
fn run_one_refuses_unavailable_module_without_running_it() {
    let module = Double::new("ghost", false, false);
    let result = run_module(&module, &ModuleConfig::default());
    match result {
        Err(ModuleError::Unavailable { module: name }) => assert_eq!(name, "ghost"),
        other => panic!("expected Unavailable, got {:?}", other),
    }
    assert_eq!(module.runs.load(Ordering::SeqCst), 0);
}

#[test]
fn run_many_isolates_a_failing_module() {
    let modules = vec![
        Double::new("a", true, false),
        Double::new("b", true, true),
        Double::new("c", true, false),
    ];
    let results = run_all_modules(&modules, &ModuleConfig::default());
    assert_eq!(results.len(), 3);
    assert_eq!(results[0].as_ref().unwrap().module, "a");
    match &results[1] {
        Err(ModuleError::Execution(e)) => {
            assert_eq!(e.module, "b");
            assert_eq!(e.cause, "boom");
        }
        other => panic!("expected Execution error, got {:?}", other),
    }
    assert_eq!(results[2].as_ref().unwrap().module, "c");
    assert_eq!(modules[0].runs.load(Ordering::SeqCst), 1);
    assert_eq!(modules[1].runs.load(Ordering::SeqCst), 1);
    assert_eq!(modules[2].runs.load(Ordering::SeqCst), 1);
}

#[test]
fn run_many_keeps_the_order_of_the_modules() {
    let modules = vec![
        Double::new("z", true, false),
        Double::new("a", false, false),
        Double::new("m", true, true),
        Double::new("b", true, false),
        Double::new("a", true, false),
    ];
    let results = run_all_modules(&modules, &ModuleConfig::default());
    let names: Vec<String> = results
        .iter()
        .map(|r| match r {
            Ok(report) => report.module.clone(),
            Err(e) => e.module().to_string(),
        })
        .collect();
    assert_eq!(names, vec!["z", "a", "m", "b", "a"]);
    assert!(matches!(results[1], Err(ModuleError::Unavailable { .. })));
    assert!(matches!(results[2], Err(ModuleError::Execution(_))));
    assert_eq!(modules[1].runs.load(Ordering::SeqCst), 0);
    for i in [0, 2, 3, 4] {
        assert_eq!(modules[i].runs.load(Ordering::SeqCst), 1);
    }
}

#[test]
fn unavailable_module_leaves_the_others_as_they_are() {
    for k in 0..3 {
        let modules: Vec<Double> =
            (0..3).map(|i| Double::new(["a", "b", "c"][i], i != k, false)).collect();
        let results = run_all_modules(&modules, &ModuleConfig::default());
        assert_eq!(results.len(), 3);
        for (i, result) in results.iter().enumerate() {
            if i == k {
                match result {
                    Err(ModuleError::Unavailable { module }) => assert_eq!(module, ["a", "b", "c"][i]),
                    other => panic!("expected Unavailable, got {:?}", other),
                }
            } else {
                let report = result.as_ref().expect("available modules run");
                assert_eq!(report.module, ["a", "b", "c"][i]);
                assert_eq!(report.overall_severity, Severity::Info);
                assert_eq!(report.findings.len(), 1);
            }
        }
    }
}

#[test]
fn available_module_passes_its_report_on_unchanged() {
    let module = Double::new("solo", true, false);
    let report = run_module(&module, &ModuleConfig::default()).expect("runs");
    assert_eq!(report.module, "solo");
    assert_eq!(report.summary, "double ran");
    assert_eq!(report.findings[0].message, "ran");
    assert_eq!(module.runs.load(Ordering::SeqCst), 1);
    let failing = Double::new("solo", true, true);
    match run_module(&failing, &ModuleConfig::default()) {
        Err(ModuleError::Execution(e)) => assert_eq!((e.module.as_str(), e.cause.as_str()), ("solo", "boom")),
        other => panic!("expected Execution error, got {:?}", other),
    }
}

#[test]
fn errors_say_what_happened() {
    let unavailable = ModuleError::Unavailable { module: "gpu".to_string() };
    assert_eq!(unavailable.message(), "Module gpu is not available on this system");
    assert_eq!(unavailable.module(), "gpu");
    let failed = ModuleError::Execution(ExecutionError {
        module: "mem".to_string(),
        cause: "no /proc".to_string(),
    });
    assert_eq!(failed.message(), "Module mem failed: no /proc");
    assert_eq!(failed.module(), "mem");
}

#[test]
fn outcomes_are_parted_in_order() {
    let modules = vec![
        Double::new("a", true, false),
        Double::new("b", false, false),
        Double::new("c", true, true),
        Double::new("d", true, false),
    ];
    let (reports, errors) = split_outcomes(run_all_modules(&modules, &ModuleConfig::default()));
    let ran: Vec<&str> = reports.iter().map(|r| r.module.as_str()).collect();
    assert_eq!(ran, vec!["a", "d"]);
    let failed: Vec<&str> = errors.iter().map(|e| e.module()).collect();
    assert_eq!(failed, vec!["b", "c"]);
    let (none, nothing) = split_outcomes(Vec::new());
    assert!(none.is_empty() && nothing.is_empty());
}
