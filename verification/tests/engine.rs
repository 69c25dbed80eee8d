use work_driver::notifier::{decide, poll_cycle, summarize};
use work_driver::reconciler::{reconcile, ClassifiedView};
use work_driver::server::{mark_seen, Reply};
use work_driver::state::{acknowledge, Stamps, State};

const MINUTE: i64 = 60_000;
const T0: i64 = 1_700_000_000_000;

fn failing() -> String {
    "PR #1 'x' has failing checks".to_string()
}

fn review() -> String {
    "PR #2 'y' awaiting your review".to_string()
}

fn poll() -> Vec<String> {
    vec![failing(), review()]
}

#[test]
fn empty_store_classifies_everything_as_unseen() {
    let (view, store) = reconcile(State::new(), &poll(), T0);
    assert_eq!(view.unseen, poll());
    assert!(view.acknowledged.is_empty());
    assert_eq!(store.last_poll, Some(T0));
    assert!(store.acknowledged.entries().is_empty());
    assert!(store.last_notified.entries().is_empty());
}

#[test]
fn empty_poll_gives_an_empty_view() {
    let store = acknowledge(State::new(), failing(), T0);
    let (view, store) = reconcile(store, &Vec::new(), T0 + MINUTE);
    assert!(view.unseen.is_empty());
    assert!(view.acknowledged.is_empty());
    assert!(store.acknowledged.entries().is_empty());
    assert_eq!(store.last_poll, Some(T0 + MINUTE));
}

#[test]
fn view_is_a_partition_in_poll_order() {
    let issues = vec![
        "a".to_string(),
        "b".to_string(),
        "c".to_string(),
        "b".to_string(),
        "d".to_string(),
    ];
    let store = acknowledge(State::new(), "b".to_string(), T0);
    let store = acknowledge(store, "d".to_string(), T0);
    let (view, _) = reconcile(store, &issues, T0 + MINUTE);
    assert_eq!(view.unseen, vec!["a".to_string(), "c".to_string()]);
    assert_eq!(
        view.acknowledged,
        vec!["b".to_string(), "b".to_string(), "d".to_string()]
    );
    assert_eq!(view.unseen.len() + view.acknowledged.len(), issues.len());
    for issue in &issues {
        assert!(view.unseen.contains(issue) != view.acknowledged.contains(issue));
    }
}

#[test]
fn acknowledged_issue_reappears_after_the_window() {
    let store = acknowledge(State::new(), failing(), T0);
    let (view, store) = reconcile(store, &poll(), T0 + 10 * MINUTE);
    assert_eq!(view.acknowledged, vec![failing()]);
    assert_eq!(view.unseen, vec![review()]);
    let (view, _) = reconcile(store, &poll(), T0 + 31 * MINUTE);
    assert_eq!(view.unseen, poll());
    assert!(view.acknowledged.is_empty());
}

#[test]
fn acknowledgement_window_ends_at_thirty_minutes() {
    let store = acknowledge(State::new(), failing(), T0);
    let (view, store) = reconcile(store, &poll(), T0 + 30 * MINUTE - 1);
    assert_eq!(view.acknowledged, vec![failing()]);
    let (view, _) = reconcile(store, &poll(), T0 + 30 * MINUTE);
    assert!(view.acknowledged.is_empty());
    assert_eq!(view.unseen, poll());
}

#[test]
fn acknowledgement_from_the_future_counts() {
    let store = acknowledge(State::new(), failing(), T0 + MINUTE);
    let (view, _) = reconcile(store, &poll(), T0);
    assert_eq!(view.acknowledged, vec![failing()]);
}

#[test]
fn extreme_timestamps_do_not_overflow() {
    let store = acknowledge(State::new(), failing(), i64::MIN);
    let (view, store) = reconcile(store, &poll(), i64::MAX);
    assert_eq!(view.unseen, poll());
    let decision = decide(&view, store, i64::MAX);
    assert!(decision.should_alert);
    let store = acknowledge(State::new(), failing(), i64::MAX);
    let (view, _) = reconcile(store, &poll(), i64::MIN);
    assert_eq!(view.acknowledged, vec![failing()]);
}

#[test]
fn unseen_issue_is_throttled() {
    let view = ClassifiedView { unseen: vec![failing()], acknowledged: Vec::new() };
    let first = decide(&view, State::new(), T0);
    assert!(first.should_alert);
    assert_eq!(first.summary, "1 failing check");
    assert_eq!(first.store.last_notified.get(&failing()), Some(T0));
    let second = decide(&view, first.store, T0 + 5 * MINUTE);
    assert!(!second.should_alert);
    assert_eq!(second.summary, "");
    assert_eq!(second.store.last_notified.get(&failing()), Some(T0));
    let third = decide(&view, second.store, T0 + 20 * MINUTE);
    assert!(third.should_alert);
    assert_eq!(third.store.last_notified.get(&failing()), Some(T0 + 20 * MINUTE));
}

#[test]
fn notification_window_is_nineteen_minutes() {
    let view = ClassifiedView { unseen: vec![failing()], acknowledged: Vec::new() };
    let first = decide(&view, State::new(), T0);
    let at_window = decide(&view, first.store, T0 + 19 * MINUTE);
    assert!(!at_window.should_alert);
    let past_window = decide(&view, at_window.store, T0 + 19 * MINUTE + 1);
    assert!(past_window.should_alert);
}

#[test]
fn acknowledged_issues_never_alert() {
    let view = ClassifiedView { unseen: Vec::new(), acknowledged: vec![failing()] };
    let decision = decide(&view, State::new(), T0);
    assert!(!decision.should_alert);
    assert_eq!(decision.summary, "");
    assert_eq!(decision.store.last_notified.get(&failing()), None);
}

#[test]
fn decide_leaves_the_rest_of_the_store_alone() {
    let store = acknowledge(State::new(), review(), T0);
    let store = State { last_poll: Some(T0 - 1), ..store };
    let view = ClassifiedView { unseen: vec![failing()], acknowledged: vec![review()] };
    let decision = decide(&view, store, T0);
    assert_eq!(decision.store.last_poll, Some(T0 - 1));
    assert_eq!(decision.store.acknowledged.entries(), vec![(review(), T0)]);
    assert_eq!(decision.store.last_notified.entries(), vec![(failing(), T0)]);
}

#[test]
fn unrecognized_issue_alerts_without_words() {
    let view = ClassifiedView {
        unseen: vec!["something else".to_string()],
        acknowledged: Vec::new(),
    };
    let decision = decide(&view, State::new(), T0);
    assert!(decision.should_alert);
    assert_eq!(decision.summary, "");
}

#[test]
fn absent_identity_is_pruned() {
    let store = acknowledge(State::new(), failing(), T0);
    let store = acknowledge(store, review(), T0);
    let (view, store) = reconcile(store, &poll(), T0 + 40 * MINUTE);
    let decision = decide(&view, store, T0 + 40 * MINUTE);
    assert_eq!(decision.store.last_notified.get(&failing()), Some(T0 + 40 * MINUTE));
    let (_, store) = reconcile(decision.store, &vec![review()], T0 + 45 * MINUTE);
    assert_eq!(store.acknowledged.get(&failing()), None);
    assert_eq!(store.last_notified.get(&failing()), None);
    assert_eq!(store.acknowledged.get(&review()), Some(T0));
    assert_eq!(store.last_notified.get(&review()), Some(T0 + 40 * MINUTE));
    assert_eq!(store.last_poll, Some(T0 + 45 * MINUTE));
}

#[test]
fn acknowledging_twice_only_moves_the_timestamp() {
    let once = acknowledge(State::new(), failing(), T0 + MINUTE);
    let twice = acknowledge(acknowledge(State::new(), failing(), T0), failing(), T0 + MINUTE);
    assert_eq!(once.acknowledged.entries(), twice.acknowledged.entries());
    assert_eq!(once.last_notified.entries(), twice.last_notified.entries());
    assert_eq!(once.last_poll, twice.last_poll);
    let same = acknowledge(acknowledge(State::new(), failing(), T0), failing(), T0);
    assert_eq!(same.acknowledged.entries(), vec![(failing(), T0)]);
}

#[test]
fn acknowledging_an_unknown_identity_is_recorded() {
    let store = acknowledge(State::new(), "never polled".to_string(), T0);
    assert_eq!(store.acknowledged.get("never polled"), Some(T0));
    assert_eq!(store.last_poll, None);
}

#[test]
fn scenario_poll_acknowledge_poll() {
    let (view, store) = reconcile(State::new(), &poll(), T0);
    assert_eq!(view.unseen, poll());
    assert!(view.acknowledged.is_empty());
    let decision = decide(&view, store, T0);
    assert!(decision.should_alert);
    assert_eq!(decision.summary, "1 failing check, 1 review waiting");
    let (reply, store) = mark_seen(
        decision.store,
        "{\"issue\": \"PR #1 'x' has failing checks\"}",
        T0 + MINUTE,
    );
    assert_eq!(reply, Reply::Done);
    let (view, _) = reconcile(store, &poll(), T0 + 5 * MINUTE);
    assert_eq!(view.unseen, vec![review()]);
    assert_eq!(view.acknowledged, vec![failing()]);
}

#[test]
fn poll_cycle_reconciles_then_decides() {
    let store = acknowledge(State::new(), review(), T0);
    let cycle = poll_cycle(store, &poll(), T0 + MINUTE);
    assert_eq!(cycle.view.unseen, vec![failing()]);
    assert_eq!(cycle.view.acknowledged, vec![review()]);
    assert!(cycle.should_alert);
    assert_eq!(cycle.summary, "1 failing check");
    assert_eq!(cycle.store.last_poll, Some(T0 + MINUTE));
    assert_eq!(cycle.store.last_notified.entries(), vec![(failing(), T0 + MINUTE)]);
    let again = poll_cycle(cycle.store, &poll(), T0 + 2 * MINUTE);
    assert!(!again.should_alert);
}

#[test]
fn summary_counts_each_kind() {
    let issues = vec![
        "PR #1 'a' has failing checks".to_string(),
        "PR #2 'b' has failing checks".to_string(),
        "PR #3 'c' awaiting your review".to_string(),
        "PR #4 'd' is draft with all checks passing".to_string(),
        "Flag 'e' [p:k:staging] in staging at partial 10% rollout, not updated in 2h".to_string(),
        "Flag 'f' [p:k:staging] in staging at partial 10% rollout, not updated in 2h".to_string(),
        "what is this".to_string(),
    ];
    assert_eq!(
        summarize(&issues),
        "2 failing checks, 1 review waiting, 1 draft ready, 2 flags waiting"
    );
    assert_eq!(summarize(&Vec::new()), "");
    assert_eq!(summarize(&vec![issues[2].clone(), issues[2].clone()]), "2 reviews waiting");
    assert_eq!(summarize(&vec![issues[4].clone()]), "1 flag waiting");
    assert_eq!(
        summarize(&vec![issues[3].clone(), issues[3].clone()]),
        "2 drafts ready"
    );
}

#[test]
fn summary_takes_the_first_marker() {
    let both = "PR #1 'awaiting your review' has failing checks".to_string();
    assert_eq!(summarize(&vec![both]), "1 failing check");
    let not_at_start = "About Flag 'x'".to_string();
    assert_eq!(summarize(&vec![not_at_start]), "");
}

#[test]
fn summary_counts_past_nine() {
    let mut issues = Vec::new();
    for n in 0..12 {
        issues.push(format!("PR #{} 'x' has failing checks", n));
    }
    assert_eq!(summarize(&issues), "12 failing checks");
}

#[test]
fn stamps_hold_one_timestamp_per_identity() {
    let stamps = Stamps::new().with("a".to_string(), 1).with("b".to_string(), 2);
    let stamps = stamps.with("a".to_string(), 3);
    assert_eq!(stamps.get("a"), Some(3));
    assert_eq!(stamps.get("b"), Some(2));
    assert_eq!(stamps.get("c"), None);
    assert_eq!(stamps.entries().len(), 2);
    let kept = stamps.retained(&vec!["b".to_string(), "z".to_string()]);
    assert_eq!(kept.entries(), vec![("b".to_string(), 2)]);
    let copy = Stamps::from_entries(stamps.entries());
    assert_eq!(copy.entries(), stamps.entries());
    let later_wins =
        Stamps::from_entries(vec![("a".to_string(), 1), ("a".to_string(), 2)]);
    assert_eq!(later_wins.entries(), vec![("a".to_string(), 2)]);
}

#[test]
fn default_store_is_empty() {
    let store = State::default();
    assert!(store.acknowledged.entries().is_empty());
    assert!(store.last_notified.entries().is_empty());
    assert_eq!(store.last_poll, None);
}

#[test]
fn malformed_acknowledgement_changes_nothing() {
    let store = acknowledge(State::new(), review(), T0);
    let (reply, store) = mark_seen(store, "{\"issue\": 5}", T0 + MINUTE);
    assert_eq!(reply, Reply::BadRequest);
    assert_eq!(store.acknowledged.entries(), vec![(review(), T0)]);
    let (reply, store) = mark_seen(store, "issue=x", T0 + MINUTE);
    assert_eq!(reply, Reply::BadRequest);
    assert_eq!(store.acknowledged.entries(), vec![(review(), T0)]);
}

#[test]
fn repeated_identity_is_due_once() {
    let view = ClassifiedView {
        unseen: vec![failing(), review(), failing()],
        acknowledged: Vec::new(),
    };
    let decision = decide(&view, State::new(), T0);
    assert!(decision.should_alert);
    assert_eq!(decision.summary, "1 failing check, 1 review waiting");
    assert_eq!(
        decision.store.last_notified.entries(),
        vec![(failing(), T0), (review(), T0)]
    );
}
