//! Orchestrates running diagnostic modules and collecting their outcomes.

use crate::framework::report::{DiagnosticReport, ReportView};
use crate::framework::traits::{
    DiagnosticModule, ExecutionError, ExecutionErrorView, ModuleConfig, ModuleConfigView,
};
use vstd::prelude::*;

verus! {

/// Why a module produced no report.
#[derive(Debug, Clone)]
pub enum ModuleError {
    /// The module declared itself unable to run on this host.
    Unavailable { module: String },
    /// The module's run failed for a systemic reason.
    Execution(ExecutionError),
}

/// Mathematical content of a [`ModuleError`].
pub ghost enum ModuleErrorView {
    Unavailable { module: Seq<char> },
    Execution(ExecutionErrorView),
}

impl View for ModuleError {
    type V = ModuleErrorView;

    open spec fn view(&self) -> ModuleErrorView {
        match *self {
            ModuleError::Unavailable { module } => ModuleErrorView::Unavailable { module: module@ },
            ModuleError::Execution(e) => ModuleErrorView::Execution(e@),
        }
    }
}

/// What an error says to the user.
pub open spec fn message_of(e: ModuleErrorView) -> Seq<char> {
    match e {
        ModuleErrorView::Unavailable { module } => "Module "@ + module
            + " is not available on this system"@,
        ModuleErrorView::Execution(failure) => "Module "@ + failure.module + " failed: "@
            + failure.cause,
    }
}

impl ModuleError {
    /// The name of the module that produced no report.
    pub fn module(&self) -> (r: &str)
        ensures
            r@ == match self@ {
                ModuleErrorView::Unavailable { module } => module,
                ModuleErrorView::Execution(failure) => failure.module,
            },
    {
        match self {
            ModuleError::Unavailable { module } => module.as_str(),
            ModuleError::Execution(failure) => failure.module.as_str(),
        }
    }

    /// What the error says to the user.
    pub fn message(&self) -> (r: String)
        ensures
            r@ == message_of(self@),
    {
        match self {
            ModuleError::Unavailable { module } => crate::utils::text::cat3(
                "Module ",
                module.as_str(),
                " is not available on this system",
            ),
            ModuleError::Execution(failure) => crate::utils::text::cat4(
                "Module ",
                failure.module.as_str(),
                " failed: ",
                failure.cause.as_str(),
            ),
        }
    }
}

/// The reports among the first `n` outcomes, in order.
pub open spec fn reports_upto(
    results: Seq<Result<DiagnosticReport, ModuleError>>,
    n: int,
) -> Seq<DiagnosticReport>
    decreases n,
{
    if n <= 0 {
        Seq::empty()
    } else {
        match results[n - 1] {
            Ok(report) => reports_upto(results, n - 1).push(report),
            Err(_) => reports_upto(results, n - 1),
        }
    }
}

/// The errors among the first `n` outcomes, in order.
pub open spec fn errors_upto(results: Seq<Result<DiagnosticReport, ModuleError>>, n: int) -> Seq<
    ModuleError,
>
    decreases n,
{
    if n <= 0 {
        Seq::empty()
    } else {
        match results[n - 1] {
            Ok(_) => errors_upto(results, n - 1),
            Err(e) => errors_upto(results, n - 1).push(e),
        }
    }
}

/// Parts the outcomes of a full run into the reports and the errors, each
/// in the order of the run.
pub fn split_outcomes(results: Vec<Result<DiagnosticReport, ModuleError>>) -> (r: (
    Vec<DiagnosticReport>,
    Vec<ModuleError>,
))
    ensures
        r.0@ == reports_upto(results@, results.len() as int),
        r.1@ == errors_upto(results@, results.len() as int),
        r.0.len() + r.1.len() == results.len(),
{
    let ghost all = results@;
    let mut reports: Vec<DiagnosticReport> = Vec::new();
    let mut errors: Vec<ModuleError> = Vec::new();
    for outcome in it: results
        invariant
            it.seq() == all,
            reports@ == reports_upto(all, it.index()),
            errors@ == errors_upto(all, it.index()),
    {
        match outcome {
            Ok(report) => reports.push(report),
            Err(e) => errors.push(e),
        }
    }
    proof {
        lemma_outcomes_are_parted(all, all.len() as int);
    }
    (reports, errors)
}

/// Each outcome is a report or an error: the two parts together are as
/// many as the outcomes.
pub proof fn lemma_outcomes_are_parted(results: Seq<Result<DiagnosticReport, ModuleError>>, n: int)
    requires
        0 <= n,
    ensures
        reports_upto(results, n).len() + errors_upto(results, n).len() == n,
    decreases n,
{
    if n > 0 {
        lemma_outcomes_are_parted(results, n - 1);
    }
}

/// The mathematical content of what the runner returned for one module.
pub open spec fn view_result(r: Result<DiagnosticReport, ModuleError>) -> Result<
    ReportView,
    ModuleErrorView,
> {
    match r {
        Ok(report) => Ok(report@),
        Err(e) => Err(e@),
    }
}

/// What the runner owes for a module with the given name and availability:
/// an `Unavailable` error carrying the name when the module is unavailable,
/// and otherwise an outcome that the module's own run allows, unchanged.
pub open spec fn run_outcome<M: DiagnosticModule + ?Sized>(
    module: &M,
    config: ModuleConfigView,
    result: Result<ReportView, ModuleErrorView>,
) -> bool {
    if !module.available() {
        result == Err::<ReportView, ModuleErrorView>(
            ModuleErrorView::Unavailable { module: module.name_text() },
        )
    } else {
        match result {
            Ok(report) => {
                &&& module.run_allows(config, Ok(report))
                &&& report.module == module.name_text()
                &&& report.severity_current()
            },
            Err(ModuleErrorView::Execution(e)) => {
                &&& module.run_allows(config, Err(e))
                &&& e.module == module.name_text()
            },
            Err(ModuleErrorView::Unavailable { .. }) => false,
        }
    }
}

/// The availability gate: refuses a module that is not available, by name.
pub fn check_available(name: &str, available: bool) -> (r: Result<(), ModuleError>)
    ensures
        available ==> r is Ok,
        !available ==> (r matches Err(e) && e@ == (ModuleErrorView::Unavailable {
            module: name@,
        })),
{
    if available {
        Ok(())
    } else {
        Err(ModuleError::Unavailable { module: name.to_owned() })
    }
}

/// Passes on what a module's run returned, a failure as an `Execution` error.
pub fn conclude(outcome: Result<DiagnosticReport, ExecutionError>) -> (r: Result<
    DiagnosticReport,
    ModuleError,
>)
    ensures
        outcome matches Ok(report) ==> r == Ok::<DiagnosticReport, ModuleError>(report),
        outcome matches Err(e) ==> r == Err::<DiagnosticReport, ModuleError>(
            ModuleError::Execution(e),
        ),
{
    match outcome {
        Ok(report) => Ok(report),
        Err(e) => Err(ModuleError::Execution(e)),
    }
}

/// Runs a single diagnostic module and returns its report.
///
/// An unavailable module is refused before its run is invoked.
pub fn run_module<M: DiagnosticModule + ?Sized>(module: &M, config: &ModuleConfig) -> (r: Result<
    DiagnosticReport,
    ModuleError,
>)
    ensures
        run_outcome(module, config@, view_result(r)),
{
    match check_available(module.name(), module.is_available()) {
        Err(e) => Err(e),
        Ok(()) => conclude(module.run(config)),
    }
}

/// Runs multiple modules in the given order and collects each outcome on its own.
pub fn run_all_modules<M: DiagnosticModule>(modules: &Vec<M>, config: &ModuleConfig) -> (results:
    Vec<Result<DiagnosticReport, ModuleError>>)
    ensures
        run_outcomes(modules@, config@, results@.map_values(|r| view_result(r))),
{
    let mut results: Vec<Result<DiagnosticReport, ModuleError>> = Vec::with_capacity(
        modules.len(),
    );
    let mut i: usize = 0;
    while i < modules.len()
        invariant
            i <= modules.len(),
            results.len() == i,
            forall|j: int|
                0 <= j < i ==> run_outcome(&modules[j], config@, #[trigger] view_result(results[j])),
        decreases modules.len() - i,
    {
        let outcome = run_module(&modules[i], config);
        results.push(outcome);
        i += 1;
    }
    proof {
        let views = results@.map_values(|r| view_result(r));
        assert forall|j: int| 0 <= j < modules.len() implies run_outcome(
            &modules[j],
            config@,
            #[trigger] views[j],
        ) by {
            assert(views[j] == view_result(results[j]));
        }
    }
    results
}

/// Whether `results` is what a run of all `modules` owes: one outcome for
/// each module, at the module's own index.
pub open spec fn run_outcomes<M: DiagnosticModule>(
    modules: Seq<M>,
    config: ModuleConfigView,
    results: Seq<Result<ReportView, ModuleErrorView>>,
) -> bool {
    &&& results.len() == modules.len()
    &&& forall|i: int| 0 <= i < modules.len() ==> run_outcome(&modules[i], config, #[trigger] results[i])
}

/// In a run of all modules, an unavailable module yields an `Unavailable`
/// error with its name at its own index, and leaves every other index with
/// what that index's module alone owes.
pub proof fn lemma_unavailable_is_isolated<M: DiagnosticModule>(
    modules: Seq<M>,
    config: ModuleConfigView,
    results: Seq<Result<ReportView, ModuleErrorView>>,
    k: int,
)
    requires
        run_outcomes(modules, config, results),
        0 <= k < modules.len(),
        !modules[k].available(),
    ensures
        results.len() == modules.len(),
        results[k] == Err::<ReportView, ModuleErrorView>(
            ModuleErrorView::Unavailable { module: modules[k].name_text() },
        ),
        forall|i: int|
            0 <= i < modules.len() && i != k ==> run_outcome(&modules[i], config, #[trigger] results[i]),
{
}

/// What a run of all modules owes at an index depends on the module at that
/// index alone: replacing any other module changes nothing there.
pub proof fn lemma_outcome_is_per_module<M: DiagnosticModule>(
    modules: Seq<M>,
    others: Seq<M>,
    config: ModuleConfigView,
    results: Seq<Result<ReportView, ModuleErrorView>>,
    i: int,
)
    requires
        run_outcomes(modules, config, results),
        others.len() == modules.len(),
        0 <= i < modules.len(),
        others[i] == modules[i],
    ensures
        run_outcome(&others[i], config, results[i]),
{
}

/// A module that is available yields its own report or its own failure,
/// never an `Unavailable` error; and a report that the runner passes on is
/// finalized and carries the module's name.
pub proof fn lemma_available_module_runs<M: DiagnosticModule + ?Sized>(
    module: &M,
    config: ModuleConfigView,
    result: Result<ReportView, ModuleErrorView>,
)
    requires
        run_outcome(module, config, result),
        module.available(),
    ensures
        !(result matches Err(ModuleErrorView::Unavailable { .. })),
        result matches Ok(report) ==> report.module == module.name_text()
            && report.severity_current(),
{
}

} // verus!
