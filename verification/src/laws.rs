//! What holds of the store across polls, acknowledgements and alerts.

use crate::notifier::{distinct, due_at, due_of, is_due, notified, NOTIFY_WINDOW};
use crate::reconciler::{
    acknowledged_at, acknowledged_of, is_acknowledged, is_unseen, reconciled, unseen_of, ACK_WINDOW,
};
use crate::state::{acknowledged_by, StateView, Timestamp};
use vstd::prelude::*;

verus! {

/// Filtering keeps exactly the members that pass the test.
pub proof fn lemma_filter_members<A>(items: Seq<A>, test: spec_fn(A) -> bool, item: A)
    ensures
        items.filter(test).contains(item) <==> items.contains(item) && test(item),
{
    if items.filter(test).contains(item) {
        items.lemma_filter_contains_rev(test, item);
        let i = choose|i: int| 0 <= i < items.filter(test).len() && items.filter(test)[i] == item;
        items.lemma_filter_pred(test, i);
    }
    if items.contains(item) && test(item) {
        let i = choose|i: int| 0 <= i < items.len() && items[i] == item;
        items.lemma_filter_contains(test, i);
    }
}

/// Filtering by a test and by its opposite splits a sequence without loss:
/// the two parts together are as long as the whole.
pub proof fn lemma_filter_split<A>(
    items: Seq<A>,
    test: spec_fn(A) -> bool,
    opposite: spec_fn(A) -> bool,
)
    requires
        forall|item: A| #[trigger] test(item) != opposite(item),
    ensures
        items.filter(test).len() + items.filter(opposite).len() == items.len(),
    decreases items.len(),
{
    if items.len() == 0 {
        items.lemma_filter_len(test);
        items.lemma_filter_len(opposite);
    } else {
        let front = items.drop_last();
        lemma_filter_split(front, test, opposite);
        assert(front.push(items.last()) == items);
        front.lemma_filter_push(items.last(), test);
        front.lemma_filter_push(items.last(), opposite);
    }
}

/// Dropping repeated identities keeps every identity, and keeps none twice.
pub proof fn lemma_distinct(issues: Seq<Seq<char>>)
    ensures
        forall|identity: Seq<char>|
            distinct(issues).contains(identity) <==> issues.contains(identity),
        distinct(issues).no_duplicates(),
    decreases issues.len(),
{
    if issues.len() > 0 {
        let front = issues.drop_last();
        lemma_distinct(front);
        assert(front.push(issues.last()) == issues);
        assert forall|identity: Seq<char>|
            distinct(issues).contains(identity) <==> issues.contains(identity) by {
            vstd::seq_lib::lemma_seq_contains_after_push(front, issues.last(), identity);
            vstd::seq_lib::lemma_seq_contains_after_push(
                distinct(front),
                issues.last(),
                identity,
            );
        }
    }
}

/// An unseen identity is among the due ones exactly when an alert for it is
/// due.
pub proof fn lemma_due(
    store: StateView,
    unseen: Seq<Seq<char>>,
    identity: Seq<char>,
    now: Timestamp,
)
    ensures
        due_of(store, unseen, now).contains(identity) <==> unseen.contains(identity) && due_at(
            store.last_notified,
            identity,
            now,
        ),
        due_of(store, unseen, now).no_duplicates(),
{
    lemma_distinct(unseen.filter(is_due(store.last_notified, now)));
    lemma_filter_members(unseen, is_due(store.last_notified, now), identity);
}

/// Reconciling partitions the poll: no issue is both unseen and
/// acknowledged, every issue of the poll is one of the two, nothing else is,
/// and no occurrence is lost or added.
pub proof fn lemma_partition(store: StateView, issues: Seq<Seq<char>>, now: Timestamp)
    ensures
        unseen_of(store, issues, now).to_set().disjoint(
            acknowledged_of(store, issues, now).to_set(),
        ),
        unseen_of(store, issues, now).to_set().union(acknowledged_of(store, issues, now).to_set())
            == issues.to_set(),
        unseen_of(store, issues, now).len() + acknowledged_of(store, issues, now).len()
            == issues.len(),
{
    let fresh = is_unseen(store.acknowledged, now);
    let acked = is_acknowledged(store.acknowledged, now);
    let unseen = unseen_of(store, issues, now);
    let acknowledged = acknowledged_of(store, issues, now);
    assert forall|identity: Seq<char>|
        !(unseen.to_set().contains(identity) && acknowledged.to_set().contains(identity)) by {
        lemma_filter_members(issues, fresh, identity);
        lemma_filter_members(issues, acked, identity);
    }
    assert forall|identity: Seq<char>|
        unseen.to_set().union(acknowledged.to_set()).contains(identity) <==> issues.to_set().contains(
            identity,
        ) by {
        lemma_filter_members(issues, fresh, identity);
        lemma_filter_members(issues, acked, identity);
    }
    lemma_filter_split(issues, fresh, acked);
}

/// An issue of the poll is acknowledged exactly when its acknowledgement is
/// younger than the window, and unseen exactly when it is not.
pub proof fn lemma_classified(
    store: StateView,
    issues: Seq<Seq<char>>,
    identity: Seq<char>,
    now: Timestamp,
)
    requires
        issues.contains(identity),
    ensures
        acknowledged_of(store, issues, now).contains(identity) <==> acknowledged_at(
            store.acknowledged,
            identity,
            now,
        ),
        unseen_of(store, issues, now).contains(identity) <==> !acknowledged_at(
            store.acknowledged,
            identity,
            now,
        ),
{
    lemma_filter_members(issues, is_unseen(store.acknowledged, now), identity);
    lemma_filter_members(issues, is_acknowledged(store.acknowledged, now), identity);
}

/// After the operator acknowledged an issue at `at`, a poll that reports it
/// lists it as acknowledged while less than the acknowledgement window has
/// passed, and as unseen again from then on.
pub proof fn lemma_acknowledgement_window(
    store: StateView,
    issues: Seq<Seq<char>>,
    identity: Seq<char>,
    at: Timestamp,
    now: Timestamp,
)
    requires
        issues.contains(identity),
    ensures
        now - at < ACK_WINDOW ==> {
            &&& acknowledged_of(acknowledged_by(store, identity, at), issues, now).contains(
                identity,
            )
            &&& !unseen_of(acknowledged_by(store, identity, at), issues, now).contains(identity)
        },
        now - at >= ACK_WINDOW ==> {
            &&& unseen_of(acknowledged_by(store, identity, at), issues, now).contains(identity)
            &&& !acknowledged_of(acknowledged_by(store, identity, at), issues, now).contains(
                identity,
            )
        },
{
    lemma_classified(acknowledged_by(store, identity, at), issues, identity, now);
}

/// An unseen issue that is due at `at` has its notification time moved to
/// `at`; asked again at `later`, `decide` finds it due exactly when more
/// than the notification window has passed since `at`.
pub proof fn lemma_throttle(
    store: StateView,
    unseen: Seq<Seq<char>>,
    identity: Seq<char>,
    at: Timestamp,
    later: Timestamp,
)
    requires
        unseen.contains(identity),
        due_at(store.last_notified, identity, at),
    ensures
        due_of(store, unseen, at).contains(identity),
        due_of(store, unseen, at).len() > 0,
        notified(store, unseen, at).last_notified.contains_key(identity),
        notified(store, unseen, at).last_notified[identity] == at,
        due_of(notified(store, unseen, at), unseen, later).contains(identity) <==> later - at
            > NOTIFY_WINDOW,
{
    lemma_due(store, unseen, identity, at);
    lemma_due(notified(store, unseen, at), unseen, identity, later);
}

/// An unseen issue for which no alert ever fired is due whatever the time:
/// `decide` asks for an alert, records the time, and then keeps quiet about
/// the issue until more than the notification window has passed.
pub proof fn lemma_first_alert(
    store: StateView,
    unseen: Seq<Seq<char>>,
    identity: Seq<char>,
    at: Timestamp,
    later: Timestamp,
)
    requires
        unseen.contains(identity),
        !store.last_notified.contains_key(identity),
    ensures
        due_of(store, unseen, at).len() > 0,
        notified(store, unseen, at).last_notified.contains_key(identity),
        notified(store, unseen, at).last_notified[identity] == at,
        due_of(notified(store, unseen, at), unseen, later).contains(identity) <==> later - at
            > NOTIFY_WINDOW,
{
    lemma_throttle(store, unseen, identity, at, later);
}

/// Deciding a second time at the same instant finds nothing due and leaves
/// the store as the first decision left it: the alert of a poll cycle fires
/// once.
pub proof fn lemma_decide_again(store: StateView, unseen: Seq<Seq<char>>, now: Timestamp)
    ensures
        due_of(notified(store, unseen, now), unseen, now).len() == 0,
        notified(notified(store, unseen, now), unseen, now) == notified(store, unseen, now),
{
    let after = notified(store, unseen, now);
    let again = due_of(after, unseen, now);
    if again.len() > 0 {
        let identity = again[0];
        assert(again.contains(identity));
        lemma_due(after, unseen, identity, now);
        lemma_due(store, unseen, identity, now);
    }
    assert(notified(after, unseen, now).last_notified =~= after.last_notified);
}

/// `decide` leaves alone every issue that is not due: its notification
/// time, if it has one, stays what it was.
pub proof fn lemma_not_due_untouched(
    store: StateView,
    unseen: Seq<Seq<char>>,
    identity: Seq<char>,
    now: Timestamp,
)
    requires
        !due_of(store, unseen, now).contains(identity),
    ensures
        notified(store, unseen, now).last_notified.contains_key(identity)
            == store.last_notified.contains_key(identity),
        store.last_notified.contains_key(identity) ==> notified(
            store,
            unseen,
            now,
        ).last_notified[identity] == store.last_notified[identity],
{
}

/// An identity that the poll no longer reports is forgotten: whatever the
/// store held for it, from an earlier poll that reported it or from an
/// acknowledgement since, the reconciled store holds neither an
/// acknowledgement nor a notification time for it.
pub proof fn lemma_pruned(
    store: StateView,
    issues: Seq<Seq<char>>,
    identity: Seq<char>,
    now: Timestamp,
)
    requires
        !issues.contains(identity),
    ensures
        !reconciled(store, issues, now).acknowledged.contains_key(identity),
        !reconciled(store, issues, now).last_notified.contains_key(identity),
{
}

/// An identity that the poll reports keeps what the store held for it.
pub proof fn lemma_carried_over(
    store: StateView,
    issues: Seq<Seq<char>>,
    identity: Seq<char>,
    now: Timestamp,
)
    requires
        issues.contains(identity),
    ensures
        reconciled(store, issues, now).acknowledged.contains_key(identity)
            == store.acknowledged.contains_key(identity),
        reconciled(store, issues, now).last_notified.contains_key(identity)
            == store.last_notified.contains_key(identity),
        store.acknowledged.contains_key(identity) ==> reconciled(
            store,
            issues,
            now,
        ).acknowledged[identity] == store.acknowledged[identity],
        store.last_notified.contains_key(identity) ==> reconciled(
            store,
            issues,
            now,
        ).last_notified[identity] == store.last_notified[identity],
{
}

/// Acknowledging the same identity twice leaves the store as one
/// acknowledgement at the later call would: only the timestamp differs from
/// the store after the first call.
pub proof fn lemma_acknowledge_twice(
    store: StateView,
    identity: Seq<char>,
    first: Timestamp,
    second: Timestamp,
)
    ensures
        acknowledged_by(acknowledged_by(store, identity, first), identity, second)
            == acknowledged_by(store, identity, second),
        acknowledged_by(acknowledged_by(store, identity, first), identity, first)
            == acknowledged_by(store, identity, first),
        acknowledged_by(acknowledged_by(store, identity, first), identity, second).acknowledged
            == acknowledged_by(store, identity, first).acknowledged.insert(identity, second),
{
    assert(store.acknowledged.insert(identity, first).insert(identity, second)
        =~= store.acknowledged.insert(identity, second));
    assert(store.acknowledged.insert(identity, first).insert(identity, first)
        =~= store.acknowledged.insert(identity, first));
}

} // verus!
