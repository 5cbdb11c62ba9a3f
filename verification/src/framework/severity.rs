//! Severity levels for diagnostic findings and reports.

use vstd::prelude::*;

verus! {

/// Severity level for a finding or overall report, from least to most severe.
#[derive(Debug, Clone, Copy, PartialEq, Eq, Structural, PartialOrd, Ord, Hash)]
pub enum Severity {
    /// No issues detected.
    Okay,
    /// Informational finding.
    Info,
    /// Warning - attention recommended.
    Warning,
    /// Critical - immediate action recommended.
    Critical,
}

impl Severity {
    /// Position of the level in the total order `Okay < Info < Warning < Critical`.
    pub open spec fn rank(self) -> nat {
        match self {
            Severity::Okay => 0,
            Severity::Info => 1,
            Severity::Warning => 2,
            Severity::Critical => 3,
        }
    }

    /// The more severe of two levels.
    pub open spec fn spec_max(self, other: Severity) -> Severity {
        if self.rank() > other.rank() {
            self
        } else {
            other
        }
    }

    /// The display string of a level.
    pub open spec fn spec_label(self) -> Seq<char> {
        match self {
            Severity::Okay => "OK"@,
            Severity::Info => "INFO"@,
            Severity::Warning => "WARNING"@,
            Severity::Critical => "CRITICAL"@,
        }
    }

    /// Executable rank, equal to [`Severity::rank`].
    pub fn level(self) -> (r: u8)
        ensures
            r == self.rank(),
    {
        match self {
            Severity::Okay => 0,
            Severity::Info => 1,
            Severity::Warning => 2,
            Severity::Critical => 3,
        }
    }

    /// Whether `self` is at least as severe as `floor`.
    pub fn at_least(self, floor: Severity) -> (r: bool)
        ensures
            r == (self.rank() >= floor.rank()),
    {
        self.level() >= floor.level()
    }

    /// Returns the maximum of two severities (higher = worse).
    pub fn max(self, other: Severity) -> (r: Severity)
        ensures
            r == self.spec_max(other),
    {
        if self.level() > other.level() {
            self
        } else {
            other
        }
    }

    /// Human-readable label for terminal output.
    pub fn label(&self) -> (r: &'static str)
        ensures
            r@ == self.spec_label(),
    {
        match self {
            Severity::Okay => "OK",
            Severity::Info => "INFO",
            Severity::Warning => "WARNING",
            Severity::Critical => "CRITICAL",
        }
    }
}

impl Default for Severity {
    fn default() -> (r: Severity)
        ensures
            r == Severity::Okay,
    {
        Severity::Okay
    }
}

/// `max` is commutative.
pub proof fn lemma_max_commutative(a: Severity, b: Severity)
    ensures
        a.spec_max(b) == b.spec_max(a),
{
}

/// `max` is associative.
pub proof fn lemma_max_associative(a: Severity, b: Severity, c: Severity)
    ensures
        a.spec_max(b).spec_max(c) == a.spec_max(b.spec_max(c)),
{
}

/// `max` is idempotent.
pub proof fn lemma_max_idempotent(a: Severity)
    ensures
        a.spec_max(a) == a,
{
}

/// `Okay` is the identity of `max`, and `Critical` absorbs every other level.
pub proof fn lemma_max_bounds(a: Severity)
    ensures
        Severity::Okay.spec_max(a) == a,
        a.spec_max(Severity::Okay) == a,
        Severity::Critical.spec_max(a) == Severity::Critical,
        a.spec_max(Severity::Critical) == Severity::Critical,
{
}

/// `max` returns one of its operands, and it ranks at least as high as both.
pub proof fn lemma_max_is_upper_bound(a: Severity, b: Severity)
    ensures
        a.spec_max(b) == a || a.spec_max(b) == b,
        a.spec_max(b).rank() >= a.rank(),
        a.spec_max(b).rank() >= b.rank(),
{
}

/// The rank orders the levels totally: equal ranks mean equal levels.
pub proof fn lemma_rank_injective(a: Severity, b: Severity)
    ensures
        a.rank() == b.rank() <==> a == b,
        a.rank() <= 3,
{
}

} // verus!
