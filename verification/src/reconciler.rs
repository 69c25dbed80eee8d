//! Classifying a poll's issues against the store.
//!
//! An issue of the current poll is acknowledged while the operator's
//! acknowledgement of it is younger than the acknowledgement window; every
//! other issue is unseen. Reconciling also forgets every identity that the
//! current poll no longer reports.

use crate::state::{State, StateView, Timestamp};
use vstd::prelude::*;

verus! {

/// How long an acknowledgement keeps an issue out of the unseen list:
/// thirty minutes, in milliseconds.
pub const ACK_WINDOW: i64 = 1_800_000;

/// A poll's issues, split by whether the operator has acknowledged them.
/// Both lists keep the order of the poll.
#[derive(Debug, PartialEq, Eq)]
pub struct ClassifiedView {
    /// Issues that are not currently acknowledged.
    pub unseen: Vec<String>,
    /// Issues acknowledged within the acknowledgement window.
    pub acknowledged: Vec<String>,
}

/// `identity` was acknowledged less than `ACK_WINDOW` before `now`.
pub open spec fn acknowledged_at(
    acknowledged: Map<Seq<char>, Timestamp>,
    identity: Seq<char>,
    now: Timestamp,
) -> bool {
    acknowledged.contains_key(identity) && now - acknowledged[identity] < ACK_WINDOW
}

/// The test that `acknowledged_of` filters by.
pub open spec fn is_acknowledged(acknowledged: Map<Seq<char>, Timestamp>, now: Timestamp) -> spec_fn(
    Seq<char>,
) -> bool {
    |identity: Seq<char>| acknowledged_at(acknowledged, identity, now)
}

/// The test that `unseen_of` filters by.
pub open spec fn is_unseen(acknowledged: Map<Seq<char>, Timestamp>, now: Timestamp) -> spec_fn(
    Seq<char>,
) -> bool {
    |identity: Seq<char>| !acknowledged_at(acknowledged, identity, now)
}

/// The issues of a poll that count as acknowledged at `now`, in poll order.
pub open spec fn acknowledged_of(store: StateView, issues: Seq<Seq<char>>, now: Timestamp) -> Seq<
    Seq<char>,
> {
    issues.filter(is_acknowledged(store.acknowledged, now))
}

/// The issues of a poll that count as unseen at `now`, in poll order.
pub open spec fn unseen_of(store: StateView, issues: Seq<Seq<char>>, now: Timestamp) -> Seq<
    Seq<char>,
> {
    issues.filter(is_unseen(store.acknowledged, now))
}

/// The store after a poll at `now` that reported `issues`: identities that
/// the poll did not report are forgotten, the timestamps of the others are
/// untouched, and the poll time is `now`.
pub open spec fn reconciled(store: StateView, issues: Seq<Seq<char>>, now: Timestamp) -> StateView {
    StateView {
        acknowledged: store.acknowledged.restrict(issues.to_set()),
        last_notified: store.last_notified.restrict(issues.to_set()),
        last_poll: Some(now),
    }
}

/// Tells whether `identity` counts as acknowledged at `now`.
pub fn is_acknowledged_now(store: &State, identity: &str, now: Timestamp) -> (yes: bool)
    ensures
        yes == acknowledged_at(store@.acknowledged, identity@, now),
{
    match store.acknowledged.get(identity) {
        Some(at) => (now as i128) - (at as i128) < (ACK_WINDOW as i128),
        None => false,
    }
}

/// Classifies the issues of the poll that completed at `now` and brings the
/// store up to date with it.
pub fn reconcile(store: State, current_issues: &Vec<String>, now: Timestamp) -> (outcome: (
    ClassifiedView,
    State,
))
    ensures
        outcome.0.unseen.deep_view() == unseen_of(store@, current_issues.deep_view(), now),
        outcome.0.acknowledged.deep_view() == acknowledged_of(
            store@,
            current_issues.deep_view(),
            now,
        ),
        outcome.1@ == reconciled(store@, current_issues.deep_view(), now),
{
    let ghost issues = current_issues.deep_view();
    let ghost acked = is_acknowledged(store@.acknowledged, now);
    let ghost fresh = is_unseen(store@.acknowledged, now);
    let mut unseen: Vec<String> = Vec::new();
    let mut acknowledged: Vec<String> = Vec::new();
    let mut i: usize = 0;
    proof {
        issues.take(0).lemma_filter_len(acked);
        issues.take(0).lemma_filter_len(fresh);
    }
    while i < current_issues.len()
        invariant
            i <= current_issues.len(),
            issues == current_issues.deep_view(),
            acked == is_acknowledged(store@.acknowledged, now),
            fresh == is_unseen(store@.acknowledged, now),
            unseen.deep_view() == issues.take(i as int).filter(fresh),
            acknowledged.deep_view() == issues.take(i as int).filter(acked),
        decreases current_issues.len() - i,
    {
        let ghost identity = issues[i as int];
        proof {
            assert(issues.take(i + 1) == issues.take(i as int).push(identity));
            issues.take(i as int).lemma_filter_push(identity, acked);
            issues.take(i as int).lemma_filter_push(identity, fresh);
        }
        if is_acknowledged_now(&store, current_issues[i].as_str(), now) {
            acknowledged.push(current_issues[i].clone());
        } else {
            unseen.push(current_issues[i].clone());
        }
        i += 1;
    }
    assert(issues.take(i as int) == issues);
    let updated = State {
        acknowledged: store.acknowledged.retained(current_issues),
        last_notified: store.last_notified.retained(current_issues),
        last_poll: Some(now),
    };
    (ClassifiedView { unseen, acknowledged }, updated)
}

} // verus!
