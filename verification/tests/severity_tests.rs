//! The severity order and its maximum.

use rustwhy::framework::Severity;

const ALL: [Severity; 4] = [Severity::Okay, Severity::Info, Severity::Warning, Severity::Critical];

#[test]
fn levels_are_ranked_in_order() {
    assert_eq!(Severity::Okay.level(), 0);
    assert_eq!(Severity::Info.level(), 1);
    assert_eq!(Severity::Warning.level(), 2);
    assert_eq!(Severity::Critical.level(), 3);
    assert!(Severity::Okay < Severity::Info);
    assert!(Severity::Info < Severity::Warning);
    assert!(Severity::Warning < Severity::Critical);
}

#[test]
fn max_returns_the_more_severe() {
    assert_eq!(Severity::Okay.max(Severity::Info), Severity::Info);
    assert_eq!(Severity::Warning.max(Severity::Info), Severity::Warning);
    assert_eq!(Severity::Critical.max(Severity::Warning), Severity::Critical);
    assert_eq!(Severity::Info.max(Severity::Info), Severity::Info);
}

#[test]
fn max_is_commutative_associative_and_idempotent() {
    for a in ALL {
        assert_eq!(a.max(a), a);
        assert_eq!(Severity::Okay.max(a), a);
        assert_eq!(a.max(Severity::Critical), Severity::Critical);
        for b in ALL {
            assert_eq!(a.max(b), b.max(a));
            assert_eq!(a.max(b), std::cmp::max(a, b));
            assert_eq!(a.at_least(b), a >= b);
            for c in ALL {
                assert_eq!(a.max(b).max(c), a.max(b.max(c)));
            }
        }
    }
}

#[test]
fn labels_are_fixed() {
    assert_eq!(Severity::Okay.label(), "OK");
    assert_eq!(Severity::Info.label(), "INFO");
    assert_eq!(Severity::Warning.label(), "WARNING");
    assert_eq!(Severity::Critical.label(), "CRITICAL");
}

#[test]
fn default_is_okay() {
    assert_eq!(Severity::default(), Severity::Okay);
}
