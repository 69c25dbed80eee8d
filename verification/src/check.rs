//! What every collector of issues has in common.

use vstd::prelude::*;

verus! {

/// Why a collector could not report.
#[derive(Debug, PartialEq, Eq)]
pub enum CheckError {
    /// The source could not be asked, or refused to answer.
    Unavailable(String),
    /// The source answered with text that is not a JSON document.
    InvalidJson,
    /// No API token was configured for the collector.
    MissingApiToken,
    /// No maintainer was configured for the collector.
    MissingMaintainerId,
}

/// A collector: something that can be asked for the issues it sees now.
/// Each description it returns is the identity of one issue.
pub trait Check {
    /// Asks the source and reports its issues, or why it could not.
    fn check(&self) -> Result<Vec<String>, CheckError>;
}

/// The issues collected so far, with a collector's report added at the end.
/// A collector that failed adds nothing.
pub open spec fn with_report(
    so_far: Seq<Seq<char>>,
    report: Result<Vec<String>, CheckError>,
) -> Seq<Seq<char>> {
    match report {
        Ok(issues) => so_far + issues.deep_view(),
        Err(_) => so_far,
    }
}

/// Adds `found` at the end of `issues`.
pub fn add_issues(issues: &mut Vec<String>, found: Vec<String>)
    ensures
        final(issues).deep_view() == old(issues).deep_view() + found.deep_view(),
{
    let ghost before = issues.deep_view();
    let mut i: usize = 0;
    while i < found.len()
        invariant
            i <= found.len(),
            issues.deep_view() == before + found.deep_view().take(i as int),
        decreases found.len() - i,
    {
        let ghost earlier = issues.deep_view();
        issues.push(found[i].clone());
        assert(issues.deep_view() == earlier.push(found[i as int]@));
        i += 1;
    }
}

/// Adds a collector's report to the issues collected so far. A failed
/// collector contributes nothing, and its error is handed back for the
/// caller to log.
pub fn add_report(issues: &mut Vec<String>, report: Result<Vec<String>, CheckError>) -> (failure:
    Option<CheckError>)
    ensures
        final(issues).deep_view() == with_report(old(issues).deep_view(), report),
        match report {
            Ok(_) => failure is None,
            Err(error) => failure == Some(error),
        },
{
    match report {
        Ok(found) => {
            add_issues(issues, found);
            None
        },
        Err(error) => Some(error),
    }
}

/// Asks one collector and adds what it reports to `issues`.
pub fn run_check<C: Check>(checker: &C, issues: &mut Vec<String>) -> (failure: Option<CheckError>)
    ensures
        failure is Some ==> final(issues).deep_view() == old(issues).deep_view(),
        failure is None ==> exists|found: Seq<Seq<char>>|
            final(issues).deep_view() == old(issues).deep_view() + found,
{
    add_report(issues, checker.check())
}

} // verus!
