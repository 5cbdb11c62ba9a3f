//! The contract that every diagnostic module implements, and its run configuration.

use crate::framework::report::{DiagnosticReport, ReportView};
use vstd::prelude::*;

verus! {

/// Permission or capability required by a module.
#[derive(Debug, Clone, Copy, PartialEq, Eq, Structural, Hash)]
pub enum Permission {
    Root,
    ReadProc,
    ReadSys,
    NetAdmin,
    PerfEvent,
}

/// A systemic failure of a module's run: diagnosis itself was impossible.
#[derive(Debug, Clone)]
pub struct ExecutionError {
    /// Name of the module that failed.
    pub module: String,
    /// What made the run impossible.
    pub cause: String,
}

/// Mathematical content of an [`ExecutionError`].
pub ghost struct ExecutionErrorView {
    pub module: Seq<char>,
    pub cause: Seq<char>,
}

impl View for ExecutionError {
    type V = ExecutionErrorView;

    open spec fn view(&self) -> ExecutionErrorView {
        ExecutionErrorView { module: self.module@, cause: self.cause@ }
    }
}

/// Configuration passed to each module when running.
#[derive(Debug, Clone)]
pub struct ModuleConfig {
    /// Include extra low-priority findings.
    pub verbose: bool,
    /// Hint that the caller repeats the run; a module itself runs once.
    pub watch: bool,
    /// Suggested seconds between caller-driven repeats.
    pub interval: u64,
    /// Cap on ranked sub-findings such as top processes.
    pub top_n: usize,
    /// Rendering hint.
    pub json_output: bool,
    /// Module-specific options by name; of two entries with one name the later counts.
    pub extra_args: Vec<(String, String)>,
}

/// The options that a list of name-value entries stands for.
pub open spec fn options_of(entries: Seq<(String, String)>) -> Map<Seq<char>, Seq<char>>
    decreases entries.len(),
{
    if entries.len() == 0 {
        Map::empty()
    } else {
        options_of(entries.drop_last()).insert(entries.last().0@, entries.last().1@)
    }
}

/// Mathematical content of a [`ModuleConfig`].
pub ghost struct ModuleConfigView {
    pub verbose: bool,
    pub watch: bool,
    pub interval: u64,
    pub top_n: usize,
    pub json_output: bool,
    pub extra_args: Map<Seq<char>, Seq<char>>,
}

impl View for ModuleConfig {
    type V = ModuleConfigView;

    open spec fn view(&self) -> ModuleConfigView {
        ModuleConfigView {
            verbose: self.verbose,
            watch: self.watch,
            interval: self.interval,
            top_n: self.top_n,
            json_output: self.json_output,
            extra_args: options_of(self.extra_args@),
        }
    }
}

impl ModuleConfigView {
    /// The value of the option `key`, if it is set.
    pub open spec fn extra(self, key: Seq<char>) -> Option<Seq<char>> {
        option_at(self.extra_args, key)
    }

    /// Whether the option `key` is set to `true`; `default` where it is not set.
    pub open spec fn flag(self, key: Seq<char>, default: bool) -> bool {
        match self.extra(key) {
            Some(value) => value == "true"@,
            None => default,
        }
    }
}

/// The value of `key` among the options `m`, if it is set.
pub open spec fn option_at(m: Map<Seq<char>, Seq<char>>, key: Seq<char>) -> Option<Seq<char>> {
    if m.dom().contains(key) {
        Some(m[key])
    } else {
        None
    }
}

impl ModuleConfig {
    /// The value of the module-specific option `key`, if it is set.
    pub fn extra(&self, key: &str) -> (r: Option<String>)
        ensures
            crate::framework::report::opt_text(r) == self@.extra(key@),
    {
        let mut i: usize = self.extra_args.len();
        assert(self.extra_args@.take(i as int) =~= self.extra_args@);
        while i > 0
            invariant
                i <= self.extra_args.len(),
                self@.extra(key@) == option_at(options_of(self.extra_args@.take(i as int)), key@),
            decreases i,
        {
            proof {
                let upto = self.extra_args@.take(i as int);
                assert(upto.drop_last() =~= self.extra_args@.take(i - 1));
                assert(upto.last() == self.extra_args@[i - 1]);
            }
            if crate::utils::text::str_eq(self.extra_args[i - 1].0.as_str(), key) {
                return Some(self.extra_args[i - 1].1.clone());
            }
            i -= 1;
        }
        None
    }

    /// Whether the option `key` is set to `true`; `default` where it is not set.
    pub fn flag(&self, key: &str, default: bool) -> (r: bool)
        ensures
            r == self@.flag(key@, default),
    {
        match self.extra(key) {
            Some(value) => crate::utils::text::str_eq(value.as_str(), "true"),
            None => default,
        }
    }

    /// Sets the module-specific option `key` to `value`.
    pub fn set_extra(&mut self, key: &str, value: &str)
        ensures
            final(self)@ == (ModuleConfigView {
                extra_args: old(self)@.extra_args.insert(key@, value@),
                ..old(self)@
            }),
    {
        self.extra_args.push((key.to_owned(), value.to_owned()));
        proof {
            assert(self.extra_args@.drop_last() =~= old(self).extra_args@);
        }
    }
}

impl Default for ModuleConfig {
    fn default() -> (r: ModuleConfig)
        ensures
            r@ == (ModuleConfigView {
                verbose: false,
                watch: false,
                interval: 2,
                top_n: 10,
                json_output: false,
                extra_args: Map::empty(),
            }),
    {
        ModuleConfig {
            verbose: false,
            watch: false,
            interval: 2,
            top_n: 10,
            json_output: false,
            extra_args: Vec::new(),
        }
    }
}

/// Core trait that all diagnostic modules must implement.
pub trait DiagnosticModule {
    /// The stable short machine name of the module; each module states its own.
    open spec fn name_text(&self) -> Seq<char> {
        arbitrary()
    }

    /// The one-line summary of the module's purpose; each module states its own.
    open spec fn description_text(&self) -> Seq<char> {
        arbitrary()
    }

    /// Whether the module can run at all on the host it was made for; a
    /// module that says nothing is always available.
    open spec fn available(&self) -> bool {
        true
    }

    /// What a run of the module with `config` may return; a module that says
    /// nothing may return anything.
    open spec fn run_allows(
        &self,
        config: ModuleConfigView,
        outcome: Result<ReportView, ExecutionErrorView>,
    ) -> bool {
        true
    }

    /// Returns the module name (e.g., "cpu", "mem").
    fn name(&self) -> (r: &'static str)
        ensures
            r@ == self.name_text(),
    ;

    /// Returns a short description of what this module analyzes.
    fn description(&self) -> (r: &'static str)
        ensures
            r@ == self.description_text(),
    ;

    /// Returns required permissions or capabilities; by default none.
    fn required_permissions(&self) -> (r: Vec<Permission>)
        default_ensures
            r@ == Seq::<Permission>::empty(),
    {
        Vec::new()
    }

    /// Check if this module can run on the current system.
    fn is_available(&self) -> (b: bool)
        ensures
            b == self.available(),
    ;

    /// Runs the diagnostic and returns a finalized report: it carries the
    /// module's name and its overall severity is the maximum over its findings.
    fn run(&self, config: &ModuleConfig) -> (r: Result<DiagnosticReport, ExecutionError>)
        ensures
            self.run_allows(config@, view_outcome(r)),
            r matches Ok(report) ==> (report@.module == self.name_text()
                && report@.severity_current()),
            r matches Err(e) ==> e@.module == self.name_text(),
    ;
}

/// The mathematical content of what a run returned.
pub open spec fn view_outcome(r: Result<DiagnosticReport, ExecutionError>) -> Result<
    ReportView,
    ExecutionErrorView,
> {
    match r {
        Ok(report) => Ok(report@),
        Err(e) => Err(e@),
    }
}

} // verus!
