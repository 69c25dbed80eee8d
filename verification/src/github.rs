//! The review-status collector: reads the pull request status that the
//! GitHub command line tool prints as JSON.

use crate::check::CheckError;
use crate::json::{
    as_array, as_str, as_u64, items_of, json_of, jsons_of, member, member_of, number_of, parse,
    parsed, text_of, Json,
};
use crate::text::{decimal, same, to_decimal};
use vstd::prelude::*;

verus! {

/// The text under `key` in an object, where there is a string under it.
pub open spec fn field_text(json: Json, key: Seq<char>) -> Option<Seq<char>> {
    match member_of(json, key) {
        Some(inner) => text_of(inner),
        None => None,
    }
}

/// The items under `key` in an object; none where there is no array there.
pub open spec fn field_items(json: Json, key: Seq<char>) -> Seq<Json> {
    match member_of(json, key) {
        Some(inner) => match items_of(inner) {
            Some(items) => items,
            None => Seq::<Json>::empty(),
        },
        None => Seq::<Json>::empty(),
    }
}

/// A status check counts as failed when its state or its conclusion is
/// `FAILURE`.
pub open spec fn check_failed(check: Json) -> bool {
    field_text(check, "state"@) == Some("FAILURE"@) || field_text(check, "conclusion"@) == Some(
        "FAILURE"@,
    )
}

/// A pull request has failures when one of its status checks failed.
pub open spec fn has_failures(pull_request: Json) -> bool {
    exists|i: int|
        0 <= i < field_items(pull_request, "statusCheckRollup"@).len() && check_failed(
            #[trigger] field_items(pull_request, "statusCheckRollup"@)[i],
        )
}

/// The title of a pull request, or `Unknown PR` where it has none.
pub open spec fn title_of(pull_request: Json) -> Seq<char> {
    match field_text(pull_request, "title"@) {
        Some(title) => title,
        None => "Unknown PR"@,
    }
}

/// The number of a pull request, or 0 where it has none.
pub open spec fn pull_number(pull_request: Json) -> u64 {
    match member_of(pull_request, "number"@) {
        Some(inner) => match number_of(inner) {
            Some(number) => number,
            None => 0,
        },
        None => 0,
    }
}

/// The description of a pull request: `PR #`, its number, its quoted
/// title, and `ending`.
pub open spec fn described(pull_request: Json, ending: Seq<char>) -> Seq<char> {
    "PR #"@ + decimal(pull_number(pull_request) as nat) + " '"@ + title_of(pull_request) + ending
}

/// The test of `issues_of` for the operator's own pull requests.
pub open spec fn failing() -> spec_fn(Json) -> bool {
    |pull_request: Json| has_failures(pull_request)
}

/// The issue for one of the operator's own pull requests whose checks fail.
pub open spec fn failing_issue() -> spec_fn(Json) -> Seq<char> {
    |pull_request: Json| described(pull_request, "' has failing checks"@)
}

/// The issue for a pull request that waits for the operator's review.
pub open spec fn review_issue() -> spec_fn(Json) -> Seq<char> {
    |pull_request: Json| described(pull_request, "' awaiting your review"@)
}

/// The issues in a pull request status document: first one for each pull
/// request under `createdBy` that has a failed check, then one for each
/// pull request under `needsReview`; both in the document's order.
pub open spec fn issues_of(document: Json) -> Seq<Seq<char>> {
    field_items(document, "createdBy"@).filter(failing()).map_values(failing_issue())
        + field_items(document, "needsReview"@).map_values(review_issue())
}

/// The collector for pull requests.
#[derive(Clone, Copy, Debug)]
pub struct GitHubChecker;

/// Tells whether the text under `key` is `expected`.
fn field_is(value: &serde_json::Value, key: &str, expected: &str) -> (yes: bool)
    ensures
        yes == (field_text(json_of(*value), key@) == Some(expected@)),
{
    match member(value, key) {
        Some(inner) => match as_str(inner) {
            Some(text) => same(text, expected),
            None => false,
        },
        None => false,
    }
}

/// The items under `key`, where there is an array under it.
fn items_under<'a>(value: &'a serde_json::Value, key: &str) -> (found: Option<
    &'a Vec<serde_json::Value>,
>)
    ensures
        match found {
            Some(items) => field_items(json_of(*value), key@) == jsons_of(items@),
            None => field_items(json_of(*value), key@) == Seq::<Json>::empty(),
        },
{
    match member(value, key) {
        Some(inner) => as_array(inner),
        None => None,
    }
}

/// Tells whether one of the status checks of a pull request failed.
fn any_check_failed(pull_request: &serde_json::Value) -> (yes: bool)
    ensures
        yes == has_failures(json_of(*pull_request)),
{
    match items_under(pull_request, "statusCheckRollup") {
        Some(checks) => {
            let ghost models = field_items(json_of(*pull_request), "statusCheckRollup"@);
            let mut i: usize = 0;
            while i < checks.len()
                invariant
                    i <= checks.len(),
                    models == jsons_of(checks@),
                    models == field_items(json_of(*pull_request), "statusCheckRollup"@),
                    forall|j: int| 0 <= j < i ==> !check_failed(#[trigger] models[j]),
                decreases checks.len() - i,
            {
                if field_is(&checks[i], "state", "FAILURE") || field_is(
                    &checks[i],
                    "conclusion",
                    "FAILURE",
                ) {
                    assert(check_failed(models[i as int]));
                    return true;
                }
                i += 1;
            }
            false
        },
        None => false,
    }
}

/// Writes the description of a pull request.
fn describe(pull_request: &serde_json::Value, ending: &str) -> (issue: String)
    ensures
        issue@ == described(json_of(*pull_request), ending@),
{
    let title = match member(pull_request, "title") {
        Some(inner) => match as_str(inner) {
            Some(text) => text,
            None => "Unknown PR",
        },
        None => "Unknown PR",
    };
    let number = match member(pull_request, "number") {
        Some(inner) => match as_u64(inner) {
            Some(number) => number,
            None => 0,
        },
        None => 0,
    };
    let mut issue = String::from_str("PR #");
    issue.append(to_decimal(number).as_str());
    issue.append(" '");
    issue.append(title);
    issue.append(ending);
    issue
}

impl GitHubChecker {
    /// A collector for pull requests.
    pub fn new() -> (checker: Self) {
        GitHubChecker
    }

    /// The issues in a pull request status document that was already read.
    pub fn issues_in(&self, data: &serde_json::Value) -> (issues: Vec<String>)
        ensures
            issues.deep_view() == issues_of(json_of(*data)),
    {
        let mut issues: Vec<String> = Vec::new();
        let ghost created_models = field_items(json_of(*data), "createdBy"@);
        let ghost review_models = field_items(json_of(*data), "needsReview"@);
        proof {
            Seq::<Json>::empty().lemma_filter_len(failing());
        }
        match items_under(data, "createdBy") {
            Some(created) => {
                let mut i: usize = 0;
                while i < created.len()
                    invariant
                        i <= created.len(),
                        created_models == jsons_of(created@),
                        issues.deep_view() == created_models.take(i as int).filter(
                            failing(),
                        ).map_values(failing_issue()),
                    decreases created.len() - i,
                {
                    let ghost model = created_models[i as int];
                    let ghost before = issues.deep_view();
                    proof {
                        assert(created_models.take(i + 1) == created_models.take(i as int).push(
                            model,
                        ));
                        created_models.take(i as int).lemma_filter_push(model, failing());
                    }
                    if any_check_failed(&created[i]) {
                        let issue = describe(&created[i], "' has failing checks");
                        issues.push(issue);
                        assert(created_models.take(i as int).filter(failing()).push(
                            model,
                        ).map_values(failing_issue()) == before.push(failing_issue()(model)));
                    }
                    i += 1;
                }
                assert(created_models.take(i as int) == created_models);
            },
            None => {},
        }
        let ghost first = issues.deep_view();
        match items_under(data, "needsReview") {
            Some(waiting) => {
                let mut i: usize = 0;
                while i < waiting.len()
                    invariant
                        i <= waiting.len(),
                        review_models == jsons_of(waiting@),
                        issues.deep_view() == first + review_models.take(i as int).map_values(
                            review_issue(),
                        ),
                    decreases waiting.len() - i,
                {
                    let ghost model = review_models[i as int];
                    let ghost before = issues.deep_view();
                    let issue = describe(&waiting[i], "' awaiting your review");
                    issues.push(issue);
                    assert(issues.deep_view() == before.push(review_issue()(model)));
                    i += 1;
                }
            },
            None => {},
        }
        issues
    }

    /// Reads the pull request status that `gh pr status --json` printed and
    /// reports its issues. Text that is not a JSON document is an error; a
    /// document of another shape than expected has no issues.
    pub fn check_output(&self, github_pr_status_output: &str) -> (outcome: Result<
        Vec<String>,
        CheckError,
    >)
        ensures
            match parsed(github_pr_status_output@) {
                Some(document) => outcome is Ok && outcome->Ok_0.deep_view() == issues_of(
                    document,
                ),
                None => outcome == Err::<Vec<String>, CheckError>(CheckError::InvalidJson),
            },
    {
        match parse(github_pr_status_output) {
            Ok(data) => Ok(self.issues_in(&data)),
            Err(_) => Err(CheckError::InvalidJson),
        }
    }
}

} // verus!
