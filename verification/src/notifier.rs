//! Deciding on alerts: which unseen issues are due for an alert, what
//! the alert says, and which notification times move forward.

use crate::reconciler::{acknowledged_of, reconcile, reconciled, unseen_of, ClassifiedView};
use crate::state::{listed, State, StateView, Timestamp};
use crate::text::{contains, decimal, join, joined, occurs_at, occurs_in, starts_with, to_decimal};
use vstd::prelude::*;

verus! {

/// How long after an alert an issue stays quiet: nineteen minutes, in
/// milliseconds.
pub const NOTIFY_WINDOW: i64 = 1_140_000;

/// What an issue is about, as far as the alert summary tells issues apart.
#[derive(Clone, Copy, Debug, PartialEq, Eq)]
pub enum Kind {
    /// A pull request with failing checks.
    FailingChecks,
    /// A pull request that waits for the operator's review.
    ReviewWaiting,
    /// A draft pull request whose checks all pass.
    DraftReady,
    /// A feature flag whose rollout needs attention.
    FlagRollout,
}

/// The kind that the fixed markers in `identity` give it. The markers are
/// tried in the order of the variants of `Kind`; an identity without any
/// marker has no kind.
pub open spec fn kind_of(identity: Seq<char>) -> Option<Kind> {
    if occurs_in(identity, "has failing checks"@) {
        Some(Kind::FailingChecks)
    } else if occurs_in(identity, "awaiting your review"@) {
        Some(Kind::ReviewWaiting)
    } else if occurs_in(identity, "is draft with all checks passing"@) {
        Some(Kind::DraftReady)
    } else if occurs_at(identity, "Flag '"@, 0) {
        Some(Kind::FlagRollout)
    } else {
        None
    }
}

/// The test that `count_of` filters by.
pub open spec fn is_kind(kind: Kind) -> spec_fn(Seq<char>) -> bool {
    |identity: Seq<char>| kind_of(identity) == Some(kind)
}

/// How many of `issues` are of `kind`.
pub open spec fn count_of(issues: Seq<Seq<char>>, kind: Kind) -> nat {
    issues.filter(is_kind(kind)).len()
}

/// The summary's words for `count` issues of one kind: nothing for none,
/// else the count and the singular or plural wording.
pub open spec fn phrase(count: nat, singular: Seq<char>, plural: Seq<char>) -> Seq<Seq<char>> {
    if count == 0 {
        Seq::<Seq<char>>::empty()
    } else if count == 1 {
        seq![decimal(count) + seq![' '] + singular]
    } else {
        seq![decimal(count) + seq![' '] + plural]
    }
}

/// The phrases of a summary, one for each kind that occurs among `issues`.
pub open spec fn phrases_of(issues: Seq<Seq<char>>) -> Seq<Seq<char>> {
    phrase(count_of(issues, Kind::FailingChecks), "failing check"@, "failing checks"@) + phrase(
        count_of(issues, Kind::ReviewWaiting),
        "review waiting"@,
        "reviews waiting"@,
    ) + phrase(count_of(issues, Kind::DraftReady), "draft ready"@, "drafts ready"@) + phrase(
        count_of(issues, Kind::FlagRollout),
        "flag waiting"@,
        "flags waiting"@,
    )
}

/// The one-line summary of `issues`, such as `2 failing checks, 1 review
/// waiting`. Issues without a kind are left out of it.
pub open spec fn summary_of(issues: Seq<Seq<char>>) -> Seq<char> {
    joined(phrases_of(issues), ", "@)
}

/// No alert for `identity` is on record, or the last one is more than
/// `NOTIFY_WINDOW` before `now`.
pub open spec fn due_at(
    last_notified: Map<Seq<char>, Timestamp>,
    identity: Seq<char>,
    now: Timestamp,
) -> bool {
    !last_notified.contains_key(identity) || now - last_notified[identity] > NOTIFY_WINDOW
}

/// The test that `due_of` filters by.
pub open spec fn is_due(last_notified: Map<Seq<char>, Timestamp>, now: Timestamp) -> spec_fn(
    Seq<char>,
) -> bool {
    |identity: Seq<char>| due_at(last_notified, identity, now)
}

/// The identities in `issues`, each once, in the order in which they first
/// occur.
pub open spec fn distinct(issues: Seq<Seq<char>>) -> Seq<Seq<char>>
    decreases issues.len(),
{
    if issues.len() == 0 {
        issues
    } else {
        let before = distinct(issues.drop_last());
        if before.contains(issues.last()) {
            before
        } else {
            before.push(issues.last())
        }
    }
}

/// The unseen identities that are due for an alert at `now`, each once, in
/// poll order.
pub open spec fn due_of(store: StateView, unseen: Seq<Seq<char>>, now: Timestamp) -> Seq<
    Seq<char>,
> {
    distinct(unseen.filter(is_due(store.last_notified, now)))
}

/// The notification times after an alert at `now` for the issues in `due`.
pub open spec fn advanced(
    last_notified: Map<Seq<char>, Timestamp>,
    due: Seq<Seq<char>>,
    now: Timestamp,
) -> Map<Seq<char>, Timestamp> {
    Map::new(
        |identity: Seq<char>| last_notified.contains_key(identity) || due.contains(identity),
        |identity: Seq<char>|
            if due.contains(identity) {
                now
            } else {
                last_notified[identity]
            },
    )
}

/// The store after a decision at `now`: the notification time of
/// every due issue is `now`, and nothing else has changed.
pub open spec fn notified(store: StateView, unseen: Seq<Seq<char>>, now: Timestamp) -> StateView {
    StateView {
        acknowledged: store.acknowledged,
        last_notified: advanced(store.last_notified, due_of(store, unseen, now), now),
        last_poll: store.last_poll,
    }
}

/// The outcome of `decide`.
#[derive(Debug)]
pub struct Decision {
    /// Whether a fresh alert should fire.
    pub should_alert: bool,
    /// The alert's text.
    pub summary: String,
    /// The store with the notification times of the due issues moved to now.
    pub store: State,
}

/// Finds the kind of an issue from the markers in its text.
pub fn classify(identity: &str) -> (kind: Option<Kind>)
    ensures
        kind == kind_of(identity@),
{
    if contains(identity, "has failing checks") {
        Some(Kind::FailingChecks)
    } else if contains(identity, "awaiting your review") {
        Some(Kind::ReviewWaiting)
    } else if contains(identity, "is draft with all checks passing") {
        Some(Kind::DraftReady)
    } else if starts_with(identity, "Flag '") {
        Some(Kind::FlagRollout)
    } else {
        None
    }
}

/// The words for `count` issues of one kind, appended to `parts`.
fn push_phrase(parts: &mut Vec<String>, count: usize, singular: &str, plural: &str)
    ensures
        final(parts).deep_view() == old(parts).deep_view() + phrase(
            count as nat,
            singular@,
            plural@,
        ),
{
    if count == 0 {
        return ;
    }
    let mut words = to_decimal(count as u64);
    proof {
        reveal_strlit(" ");
        assert(" "@ == seq![' ']);
    }
    words.append(" ");
    if count == 1 {
        words.append(singular);
    } else {
        words.append(plural);
    }
    parts.push(words);
}

/// Writes the one-line summary of `issues`.
pub fn summarize(issues: &Vec<String>) -> (summary: String)
    ensures
        summary@ == summary_of(issues.deep_view()),
{
    let ghost all = issues.deep_view();
    let mut failing: usize = 0;
    let mut reviews: usize = 0;
    let mut drafts: usize = 0;
    let mut flags: usize = 0;
    let mut i: usize = 0;
    proof {
        all.take(0).lemma_filter_len(is_kind(Kind::FailingChecks));
        all.take(0).lemma_filter_len(is_kind(Kind::ReviewWaiting));
        all.take(0).lemma_filter_len(is_kind(Kind::DraftReady));
        all.take(0).lemma_filter_len(is_kind(Kind::FlagRollout));
    }
    while i < issues.len()
        invariant
            i <= issues.len(),
            all == issues.deep_view(),
            failing == count_of(all.take(i as int), Kind::FailingChecks),
            reviews == count_of(all.take(i as int), Kind::ReviewWaiting),
            drafts == count_of(all.take(i as int), Kind::DraftReady),
            flags == count_of(all.take(i as int), Kind::FlagRollout),
            failing <= i,
            reviews <= i,
            drafts <= i,
            flags <= i,
        decreases issues.len() - i,
    {
        proof {
            let identity = all[i as int];
            assert(all.take(i + 1) == all.take(i as int).push(identity));
            all.take(i as int).lemma_filter_push(identity, is_kind(Kind::FailingChecks));
            all.take(i as int).lemma_filter_push(identity, is_kind(Kind::ReviewWaiting));
            all.take(i as int).lemma_filter_push(identity, is_kind(Kind::DraftReady));
            all.take(i as int).lemma_filter_push(identity, is_kind(Kind::FlagRollout));
        }
        match classify(issues[i].as_str()) {
            Some(Kind::FailingChecks) => {
                failing += 1;
            },
            Some(Kind::ReviewWaiting) => {
                reviews += 1;
            },
            Some(Kind::DraftReady) => {
                drafts += 1;
            },
            Some(Kind::FlagRollout) => {
                flags += 1;
            },
            None => {},
        }
        i += 1;
    }
    assert(all.take(i as int) == all);
    let mut parts: Vec<String> = Vec::new();
    push_phrase(&mut parts, failing, "failing check", "failing checks");
    push_phrase(&mut parts, reviews, "review waiting", "reviews waiting");
    push_phrase(&mut parts, drafts, "draft ready", "drafts ready");
    push_phrase(&mut parts, flags, "flag waiting", "flags waiting");
    join(&parts, ", ")
}

/// Tells whether an alert for `identity` is due at `now`.
pub fn is_due_now(store: &State, identity: &str, now: Timestamp) -> (yes: bool)
    ensures
        yes == due_at(store@.last_notified, identity@, now),
{
    match store.last_notified.get(identity) {
        Some(at) => (now as i128) - (at as i128) > (NOTIFY_WINDOW as i128),
        None => true,
    }
}

/// Decides at `now` whether a fresh alert should fire for the unseen issues
/// of `view`, and moves the notification time of every due issue to `now`.
/// Acknowledged issues play no part.
pub fn decide(view: &ClassifiedView, store: State, now: Timestamp) -> (decision: Decision)
    ensures
        decision.should_alert == (due_of(store@, view.unseen.deep_view(), now).len() > 0),
        decision.summary@ == summary_of(due_of(store@, view.unseen.deep_view(), now)),
        decision.store@ == notified(store@, view.unseen.deep_view(), now),
{
    let ghost unseen = view.unseen.deep_view();
    let ghost test = is_due(store@.last_notified, now);
    let mut due: Vec<String> = Vec::new();
    let mut i: usize = 0;
    proof {
        unseen.take(0).lemma_filter_len(test);
    }
    while i < view.unseen.len()
        invariant
            i <= view.unseen.len(),
            unseen == view.unseen.deep_view(),
            test == is_due(store@.last_notified, now),
            due.deep_view() == distinct(unseen.take(i as int).filter(test)),
        decreases view.unseen.len() - i,
    {
        let ghost identity = unseen[i as int];
        proof {
            let before = unseen.take(i as int).filter(test);
            assert(unseen.take(i + 1) == unseen.take(i as int).push(identity));
            unseen.take(i as int).lemma_filter_push(identity, test);
            assert(before.push(identity).drop_last() == before);
        }
        if is_due_now(&store, view.unseen[i].as_str(), now) && !listed(
            &due,
            view.unseen[i].as_str(),
        ) {
            due.push(view.unseen[i].clone());
        }
        i += 1;
    }
    assert(unseen.take(i as int) == unseen);
    let summary = summarize(&due);
    let should_alert = due.len() > 0;
    let ghost earlier = store@.last_notified;
    let ghost all_due = due.deep_view();
    let State { acknowledged, last_notified, last_poll } = store;
    let mut last_notified = last_notified;
    let mut k: usize = 0;
    while k < due.len()
        invariant
            k <= due.len(),
            all_due == due.deep_view(),
            last_notified@ == advanced(earlier, all_due.take(k as int), now),
        decreases due.len() - k,
    {
        last_notified = last_notified.with(due[k].clone(), now);
        proof {
            let upto = all_due.take(k as int);
            let next = all_due.take(k + 1);
            assert(next == upto.push(all_due[k as int]));
            assert forall|other: Seq<char>| next.contains(other) <==> (upto.contains(other)
                || other == all_due[k as int]) by {
                vstd::seq_lib::lemma_seq_contains_after_push(upto, all_due[k as int], other);
            }
            assert(advanced(earlier, upto, now).insert(all_due[k as int], now) =~= advanced(
                earlier,
                next,
                now,
            ));
        }
        k += 1;
    }
    assert(all_due.take(k as int) == all_due);
    Decision {
        should_alert,
        summary,
        store: State { acknowledged, last_notified, last_poll },
    }
}

/// The arguments that the desktop notifier is started with for an alert:
/// the title, the summary as the message, the sound, and the command that
/// opens the rendered page.
pub open spec fn arguments_of(summary: Seq<char>, page_path: Seq<char>) -> Seq<Seq<char>> {
    seq![
        "-title"@,
        "Work Driver"@,
        "-message"@,
        summary,
        "-sound"@,
        "Blow"@,
        "-execute"@,
        "open -a 'Google Chrome' "@ + page_path,
    ]
}

/// Builds the arguments that the desktop notifier is started with.
pub fn alert_arguments(summary: &str, page_path: &str) -> (arguments: Vec<String>)
    ensures
        arguments.deep_view() == arguments_of(summary@, page_path@),
{
    let mut open = String::from_str("open -a 'Google Chrome' ");
    open.append(page_path);
    let mut arguments: Vec<String> = Vec::new();
    arguments.push(String::from_str("-title"));
    arguments.push(String::from_str("Work Driver"));
    arguments.push(String::from_str("-message"));
    arguments.push(String::from_str(summary));
    arguments.push(String::from_str("-sound"));
    arguments.push(String::from_str("Blow"));
    arguments.push(String::from_str("-execute"));
    arguments.push(open);
    arguments
}

/// What one poll cycle comes to.
#[derive(Debug)]
pub struct Cycle {
    /// The poll's issues, classified.
    pub view: ClassifiedView,
    /// Whether a fresh alert should fire.
    pub should_alert: bool,
    /// The alert's text.
    pub summary: String,
    /// The store to persist.
    pub store: State,
}

/// Runs the two decisions of a poll cycle on the issues that were
/// collected: reconciles the store with them, then decides on an alert for
/// the unseen ones. The store that comes back is to be persisted before
/// anything else reads it.
pub fn poll_cycle(store: State, detailed_issues: &Vec<String>, now: Timestamp) -> (cycle: Cycle)
    ensures
        cycle.view.unseen.deep_view() == unseen_of(store@, detailed_issues.deep_view(), now),
        cycle.view.acknowledged.deep_view() == acknowledged_of(
            store@,
            detailed_issues.deep_view(),
            now,
        ),
        cycle.should_alert == (due_of(
            reconciled(store@, detailed_issues.deep_view(), now),
            unseen_of(store@, detailed_issues.deep_view(), now),
            now,
        ).len() > 0),
        cycle.summary@ == summary_of(
            due_of(
                reconciled(store@, detailed_issues.deep_view(), now),
                unseen_of(store@, detailed_issues.deep_view(), now),
                now,
            ),
        ),
        cycle.store@ == notified(
            reconciled(store@, detailed_issues.deep_view(), now),
            unseen_of(store@, detailed_issues.deep_view(), now),
            now,
        ),
{
    let (view, reconciled_store) = reconcile(store, detailed_issues, now);
    let decision = decide(&view, reconciled_store, now);
    Cycle {
        view,
        should_alert: decision.should_alert,
        summary: decision.summary,
        store: decision.store,
    }
}

} // verus!
