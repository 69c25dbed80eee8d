use work_driver::check::{add_report, run_check, Check, CheckError};
use work_driver::github::GitHubChecker;
use work_driver::launchdarkly::{
    find_enabled, find_weight, get_rollout_percentage, sum_weights, Environment, FlagDetail,
    LaunchDarklyChecker, Share, Variation, WeightedVariation,
};
use work_driver::server::{after_persisting, get_state, index, issue_in, read_seen_request, Reply};

const STATUS: &str = r#"{
  "createdBy": [
    {
      "number": 591209,
      "title": "Passing",
      "statusCheckRollup": [
        {"state": "SUCCESS"},
        {"conclusion": "SUCCESS", "state": null}
      ]
    }
  ],
  "needsReview": [
    {"number": 591746, "title": "First"},
    {"number": 591547, "title": "Second"},
    {"number": 590962, "title": "Third"}
  ]
}"#;

#[test]
fn test_github_checker() {
    let checker = GitHubChecker::new();
    let issues = checker.check_output(STATUS).unwrap();
    assert_eq!(issues.len(), 3, "Expected 3 issues, got: {:#?}", issues);
    assert!(issues.iter().any(|i| i.contains("#591746") && i.contains("awaiting your review")));
    assert!(issues.iter().any(|i| i.contains("#591547") && i.contains("awaiting your review")));
    assert!(issues.iter().any(|i| i.contains("#590962") && i.contains("awaiting your review")));
    assert!(!issues.iter().any(|i| i.contains("#591209")));
}

#[test]
fn review_issues_are_worded_exactly() {
    let issues = GitHubChecker::new().check_output(STATUS).unwrap();
    assert_eq!(
        issues,
        vec![
            "PR #591746 'First' awaiting your review",
            "PR #591547 'Second' awaiting your review",
            "PR #590962 'Third' awaiting your review",
        ]
    );
}

#[test]
fn failing_checks_come_first() {
    let text = r#"{
        "needsReview": [{"number": 3, "title": "c"}],
        "createdBy": [
            {"number": 1, "title": "a", "statusCheckRollup": [{"state": "SUCCESS"}, {"state": "FAILURE"}]},
            {"number": 2, "title": "b", "statusCheckRollup": [{"conclusion": "FAILURE"}]},
            {"number": 4, "title": "d", "statusCheckRollup": []},
            {"number": 5, "title": "e"},
            {"number": 6, "title": "f", "statusCheckRollup": [{"state": "failure"}]}
        ]
    }"#;
    let issues = GitHubChecker::new().check_output(text).unwrap();
    assert_eq!(
        issues,
        vec![
            "PR #1 'a' has failing checks",
            "PR #2 'b' has failing checks",
            "PR #3 'c' awaiting your review",
        ]
    );
}

#[test]
fn missing_fields_get_their_defaults() {
    let text = r#"{"needsReview": [{}, {"number": -4, "title": 7}, {"number": 1.5}, "x"],
                   "createdBy": [{"statusCheckRollup": [{"state": "FAILURE"}]}]}"#;
    let issues = GitHubChecker::new().check_output(text).unwrap();
    assert_eq!(
        issues,
        vec![
            "PR #0 'Unknown PR' has failing checks",
            "PR #0 'Unknown PR' awaiting your review",
            "PR #0 'Unknown PR' awaiting your review",
            "PR #0 'Unknown PR' awaiting your review",
            "PR #0 'Unknown PR' awaiting your review",
        ]
    );
}

#[test]
fn document_of_another_shape_has_no_issues() {
    let checker = GitHubChecker::new();
    assert!(checker.check_output("{}").unwrap().is_empty());
    assert!(checker.check_output("[]").unwrap().is_empty());
    assert!(checker.check_output("null").unwrap().is_empty());
    assert!(checker.check_output(r#"{"needsReview": {}, "createdBy": 3}"#).unwrap().is_empty());
}

#[test]
fn text_that_is_no_document_is_an_error() {
    let checker = GitHubChecker::new();
    assert_eq!(checker.check_output("not json"), Err(CheckError::InvalidJson));
    assert_eq!(checker.check_output(""), Err(CheckError::InvalidJson));
    assert_eq!(checker.check_output("{\"needsReview\": ["), Err(CheckError::InvalidJson));
}

#[test]
fn issues_in_a_document_that_was_read() {
    let data: serde_json::Value =
        serde_json::from_str(r#"{"needsReview": [{"number": 18446744073709551615, "title": "big"}]}"#)
            .unwrap();
    assert_eq!(
        GitHubChecker::new().issues_in(&data),
        vec!["PR #18446744073709551615 'big' awaiting your review"]
    );
}

struct Fixed(Result<Vec<String>, CheckError>);

impl Check for Fixed {
    fn check(&self) -> Result<Vec<String>, CheckError> {
        match &self.0 {
            Ok(issues) => Ok(issues.clone()),
            Err(CheckError::Unavailable(why)) => Err(CheckError::Unavailable(why.clone())),
            Err(CheckError::InvalidJson) => Err(CheckError::InvalidJson),
            Err(CheckError::MissingApiToken) => Err(CheckError::MissingApiToken),
            Err(CheckError::MissingMaintainerId) => Err(CheckError::MissingMaintainerId),
        }
    }
}

#[test]
fn failed_collector_contributes_nothing() {
    let mut issues = vec!["a".to_string()];
    assert_eq!(add_report(&mut issues, Ok(vec!["b".to_string(), "c".to_string()])), None);
    assert_eq!(issues, vec!["a", "b", "c"]);
    assert_eq!(
        add_report(&mut issues, Err(CheckError::Unavailable("down".to_string()))),
        Some(CheckError::Unavailable("down".to_string()))
    );
    assert_eq!(issues, vec!["a", "b", "c"]);
    assert_eq!(run_check(&Fixed(Ok(vec!["d".to_string()])), &mut issues), None);
    assert_eq!(run_check(&Fixed(Err(CheckError::InvalidJson)), &mut issues), Some(CheckError::InvalidJson));
    assert_eq!(issues, vec!["a", "b", "c", "d"]);
}

fn boolean_flag(staging: Option<Environment>, production: Option<Environment>) -> FlagDetail {
    FlagDetail {
        name: "New UI".to_string(),
        kind: "boolean".to_string(),
        variations: vec![
            Variation { name: Some("Disabled".to_string()), is_true: false },
            Variation { name: Some("ENABLED".to_string()), is_true: true },
        ],
        staging,
        production,
    }
}

fn rollout(off: i32, on: i32) -> Option<Vec<WeightedVariation>> {
    Some(vec![
        WeightedVariation { variation: 0, weight: off },
        WeightedVariation { variation: 1, weight: on },
    ])
}

fn environment(changed: Option<i64>, on: bool, rollout: Option<Vec<WeightedVariation>>) -> Environment {
    Environment { last_modified: changed, on, rollout }
}

const HOUR: i64 = 3_600_000;
const NOW: i64 = 1_700_000_000_000;

#[test]
fn enabled_variation_is_found_by_name_then_by_value() {
    let by_name = vec![
        Variation { name: None, is_true: true },
        Variation { name: Some("EnAbLeD".to_string()), is_true: false },
    ];
    assert_eq!(find_enabled(&by_name), Some(1));
    let by_value = vec![
        Variation { name: Some("on".to_string()), is_true: false },
        Variation { name: None, is_true: true },
        Variation { name: None, is_true: true },
    ];
    assert_eq!(find_enabled(&by_value), Some(1));
    let neither = vec![Variation { name: Some("enabled ".to_string()), is_true: false }];
    assert_eq!(find_enabled(&neither), None);
    assert_eq!(find_enabled(&Vec::new()), None);
}

#[test]
fn weights_are_summed_and_found() {
    let weights = rollout(70_000, 30_000).unwrap();
    assert_eq!(sum_weights(&weights), 100_000);
    assert_eq!(find_weight(&weights, 1), 30_000);
    assert_eq!(find_weight(&weights, 2), 0);
    let extreme = vec![
        WeightedVariation { variation: 0, weight: i32::MAX },
        WeightedVariation { variation: 0, weight: i32::MAX },
        WeightedVariation { variation: -1, weight: i32::MIN },
    ];
    assert_eq!(sum_weights(&extreme), 2 * (i32::MAX as i128) + (i32::MIN as i128));
    assert_eq!(find_weight(&extreme, 0), i32::MAX);
    assert_eq!(find_weight(&extreme, usize::MAX), 0);
    assert_eq!(sum_weights(&Vec::new()), 0);
}

#[test]
fn rollout_share_follows_the_settings() {
    let flag = boolean_flag(None, None);
    let nothing = Some(Share { part: 0, whole: 1 });
    assert_eq!(get_rollout_percentage(&flag, &environment(None, false, rollout(0, 1))), nothing);
    assert_eq!(
        get_rollout_percentage(&flag, &environment(None, true, rollout(70_000, 30_000))),
        Some(Share { part: 30_000, whole: 100_000 })
    );
    assert_eq!(get_rollout_percentage(&flag, &environment(None, true, rollout(0, 0))), nothing);
    assert_eq!(get_rollout_percentage(&flag, &environment(None, true, None)), None);
    assert_eq!(
        get_rollout_percentage(
            &flag,
            &environment(None, true, Some(vec![WeightedVariation { variation: 0, weight: 5 }]))
        ),
        Some(Share { part: 0, whole: 5 })
    );
    let text_flag = FlagDetail { kind: "string".to_string(), ..boolean_flag(None, None) };
    assert_eq!(get_rollout_percentage(&text_flag, &environment(None, true, rollout(1, 1))), None);
    assert_eq!(get_rollout_percentage(&text_flag, &environment(None, false, None)), nothing);
    let unnamed = FlagDetail {
        variations: vec![Variation { name: None, is_true: false }],
        ..boolean_flag(None, None)
    };
    assert_eq!(get_rollout_percentage(&unnamed, &environment(None, true, rollout(1, 1))), None);
}

fn checker() -> LaunchDarklyChecker {
    LaunchDarklyChecker::new(Some("token".to_string()), Some("me".to_string()), Some("web".to_string()))
        .unwrap()
}

#[test]
fn checker_needs_a_token_and_a_maintainer() {
    assert!(matches!(
        LaunchDarklyChecker::new(None, Some("me".to_string()), None),
        Err(CheckError::MissingApiToken)
    ));
    assert!(matches!(LaunchDarklyChecker::new(None, None, None), Err(CheckError::MissingApiToken)));
    assert!(matches!(
        LaunchDarklyChecker::new(Some("t".to_string()), None, None),
        Err(CheckError::MissingMaintainerId)
    ));
    let by_default =
        LaunchDarklyChecker::new(Some("t".to_string()), Some("me".to_string()), None).unwrap();
    assert_eq!(by_default.api_token(), "t");
    assert_eq!(
        by_default.list_url(),
        "https://app.launchdarkly.com/api/v2/flags/default?filter=maintainerId:me"
    );
    assert_eq!(
        checker().detail_url("new-ui"),
        "https://app.launchdarkly.com/api/v2/flags/web/new-ui"
    );
}

#[test]
fn staging_far_along_and_production_not_started() {
    let flag = boolean_flag(
        Some(environment(Some(NOW), true, rollout(1, 2))),
        Some(environment(Some(NOW), true, rollout(1, 0))),
    );
    assert_eq!(
        checker().check_flag("new-ui", &flag, NOW),
        vec!["Flag 'New UI' [web:new-ui:production] rolled out to 67% in staging, but not started in production"]
    );
    let half = boolean_flag(
        Some(environment(Some(NOW), true, rollout(50, 50))),
        Some(environment(Some(NOW), false, None)),
    );
    assert_eq!(
        checker().check_flag("k", &half, NOW),
        vec!["Flag 'New UI' [web:k:production] rolled out to 50% in staging, but not started in production"]
    );
    let below = boolean_flag(
        Some(environment(Some(NOW), true, rollout(51, 49))),
        Some(environment(Some(NOW), false, None)),
    );
    assert!(checker().check_flag("k", &below, NOW).is_empty());
    let started = boolean_flag(
        Some(environment(Some(NOW), true, rollout(0, 1))),
        Some(environment(Some(NOW), true, rollout(99, 1))),
    );
    assert!(checker().check_flag("k", &started, NOW).is_empty());
    let no_production = boolean_flag(Some(environment(Some(NOW), true, rollout(0, 1))), None);
    assert!(checker().check_flag("k", &no_production, NOW).is_empty());
}

#[test]
fn partial_rollouts_go_stale() {
    let flag = boolean_flag(
        Some(environment(Some(NOW - 2 * HOUR), true, rollout(80, 20))),
        Some(environment(Some(NOW - 18 * HOUR), true, rollout(1, 1))),
    );
    assert_eq!(
        checker().check_flag("new-ui", &flag, NOW),
        vec![
            "Flag 'New UI' [web:new-ui:staging] in staging at partial 20% rollout, not updated in 2h",
            "Flag 'New UI' [web:new-ui:production] in production at partial 50% rollout, not updated in 18h",
        ]
    );
    let recent = boolean_flag(
        Some(environment(Some(NOW - 2 * HOUR + 1), true, rollout(80, 20))),
        Some(environment(Some(NOW - 18 * HOUR + 1), true, rollout(1, 1))),
    );
    assert!(checker().check_flag("new-ui", &recent, NOW).is_empty());
    let unknown_age = boolean_flag(Some(environment(None, true, rollout(80, 20))), None);
    assert!(checker().check_flag("new-ui", &unknown_age, NOW).is_empty());
    let done = boolean_flag(
        Some(environment(Some(0), true, rollout(50, 50))),
        Some(environment(Some(0), true, rollout(0, 1))),
    );
    assert!(checker().check_flag("new-ui", &done, NOW).is_empty());
    let not_begun = boolean_flag(Some(environment(Some(0), true, rollout(1, 0))), None);
    assert!(checker().check_flag("new-ui", &not_begun, NOW).is_empty());
}

#[test]
fn percentages_are_rounded_to_the_nearest_whole() {
    let percent = |off: i32, on: i32| {
        let flag = boolean_flag(None, Some(environment(Some(0), true, rollout(off, on))));
        checker().check_flag("k", &flag, NOW)
    };
    let expect = |shown: &str| {
        vec![format!(
            "Flag 'New UI' [web:k:production] in production at partial {}% rollout, not updated in 18h",
            shown
        )]
    };
    assert_eq!(percent(2, 1), expect("33"));
    assert_eq!(percent(1, 2), expect("67"));
    assert_eq!(percent(7, 1), expect("12"));
    assert_eq!(percent(5, 3), expect("38"));
    assert_eq!(percent(999, 1), expect("0"));
    assert_eq!(percent(1, 999), expect("100"));
    assert_eq!(percent(-3, -1), expect("25"));
}

#[test]
fn flags_are_checked_one_after_another() {
    let stale = boolean_flag(Some(environment(Some(0), true, rollout(80, 20))), None);
    let fine = boolean_flag(None, None);
    let also_stale = boolean_flag(None, Some(environment(Some(0), true, rollout(1, 3))));
    let flags = vec![
        ("a".to_string(), stale),
        ("b".to_string(), fine),
        ("c".to_string(), also_stale),
    ];
    assert_eq!(
        checker().check_flags(&flags, NOW),
        vec![
            "Flag 'New UI' [web:a:staging] in staging at partial 20% rollout, not updated in 2h",
            "Flag 'New UI' [web:c:production] in production at partial 75% rollout, not updated in 18h",
        ]
    );
    assert!(checker().check_flags(&Vec::new(), NOW).is_empty());
}

#[test]
fn replies_have_their_status_codes() {
    assert_eq!(Reply::Done.status_code(), 200);
    assert_eq!(Reply::BadRequest.status_code(), 400);
    assert_eq!(Reply::NotFound.status_code(), 404);
    assert_eq!(Reply::InternalError.status_code(), 500);
    assert_eq!(index(Some("<html>".to_string())), (Reply::Done, "<html>".to_string()));
    assert_eq!(index(None), (Reply::NotFound, String::new()));
    assert_eq!(after_persisting(Reply::Done, true), Reply::Done);
    assert_eq!(after_persisting(Reply::Done, false), Reply::InternalError);
    assert_eq!(after_persisting(Reply::BadRequest, true), Reply::BadRequest);
    assert_eq!(get_state(true), Reply::Done);
    assert_eq!(get_state(false), Reply::InternalError);
}

#[test]
fn acknowledgement_request_names_an_issue() {
    assert_eq!(read_seen_request("{\"issue\": \"a b\"}"), Some("a b".to_string()));
    assert_eq!(read_seen_request("{\"issue\": \"\", \"more\": 1}"), Some(String::new()));
    assert_eq!(read_seen_request("{\"issue\": 3}"), None);
    assert_eq!(read_seen_request("{\"other\": \"a\"}"), None);
    assert_eq!(read_seen_request("[\"a\"]"), None);
    assert_eq!(read_seen_request("{\"issue\": "), None);
    let document: serde_json::Value = serde_json::from_str("{\"issue\": \"x\"}").unwrap();
    assert_eq!(issue_in(&document), Some("x".to_string()));
}
