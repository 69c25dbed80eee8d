//! The issue record store: when each issue was acknowledged, when an alert
//! last fired for it, and when the last poll completed.
//!
//! An issue's identity is the exact text of its description. Timestamps are
//! milliseconds since the Unix epoch.

use crate::text::same;
use vstd::prelude::*;

verus! {

/// A point in time, in milliseconds since the Unix epoch.
pub type Timestamp = i64;

/// A record of one timestamp per issue identity.
#[derive(Debug)]
pub struct Stamps {
    entries: Vec<(String, Timestamp)>,
}

/// No identity is recorded twice.
pub open spec fn distinct_identities(entries: Seq<(String, Timestamp)>) -> bool {
    forall|i: int, j: int|
        0 <= i < j < entries.len() ==> (#[trigger] entries[i]).0@ != (#[trigger] entries[j]).0@
}

/// `identity` is recorded among `entries`.
pub open spec fn recorded(entries: Seq<(String, Timestamp)>, identity: Seq<char>) -> bool {
    exists|i: int| 0 <= i < entries.len() && (#[trigger] entries[i]).0@ == identity
}

/// The position of `identity` among `entries`.
pub open spec fn position_of(entries: Seq<(String, Timestamp)>, identity: Seq<char>) -> int {
    choose|i: int| 0 <= i < entries.len() && (#[trigger] entries[i]).0@ == identity
}

/// The mapping that a list of entries with distinct identities stands for.
pub open spec fn mapping_of(entries: Seq<(String, Timestamp)>) -> Map<Seq<char>, Timestamp> {
    Map::new(
        |identity: Seq<char>| recorded(entries, identity),
        |identity: Seq<char>| entries[position_of(entries, identity)].1,
    )
}

/// With distinct identities, each entry is looked up under its own identity,
/// and nothing else is.
pub proof fn lemma_mapping_of(entries: Seq<(String, Timestamp)>)
    requires
        distinct_identities(entries),
    ensures
        forall|i: int|
            0 <= i < entries.len() ==> {
                &&& mapping_of(entries).contains_key((#[trigger] entries[i]).0@)
                &&& mapping_of(entries)[entries[i].0@] == entries[i].1
            },
        forall|identity: Seq<char>| #[trigger]
            mapping_of(entries).contains_key(identity) <==> recorded(entries, identity),
{
}

/// The mapping built by recording `entries` one after another, a later entry
/// replacing an earlier one for the same identity.
pub open spec fn recorded_in_turn(entries: Seq<(String, Timestamp)>) -> Map<Seq<char>, Timestamp>
    decreases entries.len(),
{
    if entries.len() == 0 {
        Map::empty()
    } else {
        recorded_in_turn(entries.drop_last()).insert(entries.last().0@, entries.last().1)
    }
}

/// Recording entries with distinct identities in turn gives the mapping that
/// the entries stand for.
pub proof fn lemma_recorded_in_turn(entries: Seq<(String, Timestamp)>)
    requires
        distinct_identities(entries),
    ensures
        recorded_in_turn(entries) == mapping_of(entries),
    decreases entries.len(),
{
    lemma_mapping_of(entries);
    if entries.len() > 0 {
        let front = entries.drop_last();
        lemma_recorded_in_turn(front);
        lemma_mapping_of(front);
        assert forall|k: Seq<char>| recorded(entries, k) && k != entries.last().0@ implies recorded(
            front,
            k,
        ) by {
            assert(front[position_of(entries, k)].0@ == k);
        }
        assert(mapping_of(entries) =~= mapping_of(front).insert(
            entries.last().0@,
            entries.last().1,
        ));
    }
}

/// `identity` is one of `issues`.
pub fn listed(issues: &Vec<String>, identity: &str) -> (found: bool)
    ensures
        found == issues.deep_view().contains(identity@),
{
    let mut i: usize = 0;
    while i < issues.len()
        invariant
            i <= issues.len(),
            forall|j: int| 0 <= j < i ==> issues.deep_view()[j] != identity@,
        decreases issues.len() - i,
    {
        if same(issues[i].as_str(), identity) {
            assert(issues.deep_view()[i as int] == identity@);
            return true;
        }
        i += 1;
    }
    false
}

impl View for Stamps {
    type V = Map<Seq<char>, Timestamp>;

    closed spec fn view(&self) -> Map<Seq<char>, Timestamp> {
        mapping_of(self.entries@)
    }
}

impl Stamps {
    #[verifier::type_invariant]
    spec fn well_formed(self) -> bool {
        distinct_identities(self.entries@)
    }

    /// A record with no entries.
    pub fn new() -> (stamps: Stamps)
        ensures
            stamps@ == Map::<Seq<char>, Timestamp>::empty(),
    {
        let stamps = Stamps { entries: Vec::new() };
        stamps
    }

    /// Where `identity` is recorded, if it is.
    fn position(&self, identity: &str) -> (found: Option<usize>)
        ensures
            match found {
                Some(i) => i < self.entries@.len() && self.entries@[i as int].0@ == identity@,
                None => !recorded(self.entries@, identity@),
            },
    {
        let mut i: usize = 0;
        while i < self.entries.len()
            invariant
                i <= self.entries@.len(),
                forall|j: int| 0 <= j < i ==> (#[trigger] self.entries@[j]).0@ != identity@,
            decreases self.entries@.len() - i,
        {
            if same(self.entries[i].0.as_str(), identity) {
                return Some(i);
            }
            i += 1;
        }
        None
    }

    /// The timestamp recorded for `identity`, if there is one.
    pub fn get(&self, identity: &str) -> (found: Option<Timestamp>)
        ensures
            found == if self@.contains_key(identity@) {
                Some(self@[identity@])
            } else {
                None::<Timestamp>
            },
    {
        proof {
            use_type_invariant(self);
        }
        match self.position(identity) {
            Some(i) => Some(self.entries[i].1),
            None => None,
        }
    }

    /// The record with `at` recorded for `identity`, in place of any earlier
    /// timestamp.
    pub fn with(self, identity: String, at: Timestamp) -> (stamps: Stamps)
        ensures
            stamps@ == self@.insert(identity@, at),
    {
        proof {
            use_type_invariant(&self);
        }
        let found = self.position(identity.as_str());
        let mut entries = self.entries;
        let ghost before = entries@;
        let ghost at_identity: int;
        match found {
            Some(i) => {
                proof {
                    at_identity = i as int;
                }
                entries.set(i, (identity, at));
            },
            None => {
                proof {
                    at_identity = before.len() as int;
                }
                entries.push((identity, at));
            },
        }
        proof {
            lemma_mapping_of(before);
            lemma_mapping_of(entries@);
            assert(entries@[at_identity] == (identity, at));
            assert forall|k: Seq<char>| recorded(before, k) implies recorded(entries@, k) by {
                assert(entries@[position_of(before, k)].0@ == k);
            }
            assert(mapping_of(entries@) =~= mapping_of(before).insert(identity@, at));
        }
        Stamps { entries }
    }

    /// The record cut down to the identities listed in `keep`.
    pub fn retained(&self, keep: &Vec<String>) -> (stamps: Stamps)
        ensures
            stamps@ == self@.restrict(keep.deep_view().to_set()),
    {
        proof {
            use_type_invariant(self);
        }
        let mut entries: Vec<(String, Timestamp)> = Vec::new();
        let mut i: usize = 0;
        while i < self.entries.len()
            invariant
                i <= self.entries@.len(),
                distinct_identities(self.entries@),
                forall|m: int|
                    0 <= m < entries@.len() ==> exists|j: int|
                        0 <= j < i && (#[trigger] self.entries@[j]).0@ == (#[trigger] entries@[m]).0@
                            && self.entries@[j].1 == entries@[m].1 && keep.deep_view().contains(
                            entries@[m].0@,
                        ),
                forall|j: int|
                    0 <= j < i && keep.deep_view().contains((#[trigger] self.entries@[j]).0@)
                        ==> recorded(entries@, self.entries@[j].0@),
                distinct_identities(entries@),
            decreases self.entries@.len() - i,
        {
            if listed(keep, self.entries[i].0.as_str()) {
                let ghost earlier = entries@;
                entries.push((self.entries[i].0.clone(), self.entries[i].1));
                assert(entries@[earlier.len() as int].0@ == self.entries@[i as int].0@);
                assert forall|j: int|
                    0 <= j <= i && keep.deep_view().contains(
                        (#[trigger] self.entries@[j]).0@,
                    ) implies recorded(entries@, self.entries@[j].0@) by {
                    if j < i {
                        let m = position_of(earlier, self.entries@[j].0@);
                        assert(entries@[m].0@ == self.entries@[j].0@);
                    }
                }
            }
            i += 1;
        }
        proof {
            lemma_mapping_of(self.entries@);
            lemma_mapping_of(entries@);
            assert(mapping_of(entries@) =~= mapping_of(self.entries@).restrict(
                keep.deep_view().to_set(),
            ));
        }
        Stamps { entries }
    }

    /// The record that results from recording `entries` one after another.
    pub fn from_entries(entries: Vec<(String, Timestamp)>) -> (stamps: Stamps)
        ensures
            stamps@ == recorded_in_turn(entries@),
    {
        let mut stamps = Stamps::new();
        let mut i: usize = 0;
        while i < entries.len()
            invariant
                i <= entries.len(),
                stamps@ == recorded_in_turn(entries@.take(i as int)),
            decreases entries.len() - i,
        {
            assert(entries@.take(i + 1).drop_last() == entries@.take(i as int));
            stamps = stamps.with(entries[i].0.clone(), entries[i].1);
            i += 1;
        }
        assert(entries@.take(i as int) == entries@);
        stamps
    }

    /// The entries of the record: each identity once, with its timestamp.
    pub fn entries(&self) -> (entries: Vec<(String, Timestamp)>)
        ensures
            distinct_identities(entries@),
            mapping_of(entries@) == self@,
            recorded_in_turn(entries@) == self@,
    {
        proof {
            use_type_invariant(self);
        }
        let mut entries: Vec<(String, Timestamp)> = Vec::new();
        let mut i: usize = 0;
        while i < self.entries.len()
            invariant
                i <= self.entries@.len(),
                entries@ == self.entries@.take(i as int),
            decreases self.entries@.len() - i,
        {
            entries.push((self.entries[i].0.clone(), self.entries[i].1));
            i += 1;
        }
        assert(entries@ == self.entries@);
        proof {
            lemma_recorded_in_turn(entries@);
        }
        entries
    }
}

/// The issue record store.
#[derive(Debug)]
pub struct State {
    /// When the operator last acknowledged each identity.
    pub acknowledged: Stamps,
    /// When an alert last fired that included each identity.
    pub last_notified: Stamps,
    /// When the most recent poll cycle completed.
    pub last_poll: Option<Timestamp>,
}

/// What a store holds, as mathematical maps.
pub struct StateView {
    pub acknowledged: Map<Seq<char>, Timestamp>,
    pub last_notified: Map<Seq<char>, Timestamp>,
    pub last_poll: Option<Timestamp>,
}

impl View for State {
    type V = StateView;

    open spec fn view(&self) -> StateView {
        StateView {
            acknowledged: self.acknowledged@,
            last_notified: self.last_notified@,
            last_poll: self.last_poll,
        }
    }
}

/// The store of a first run: nothing acknowledged, nothing notified, no poll yet.
pub open spec fn empty_store() -> StateView {
    StateView { acknowledged: Map::empty(), last_notified: Map::empty(), last_poll: None }
}

impl State {
    /// The empty store.
    pub fn new() -> (state: State)
        ensures
            state@ == empty_store(),
    {
        State { acknowledged: Stamps::new(), last_notified: Stamps::new(), last_poll: None }
    }
}

impl Default for State {
    fn default() -> (state: State)
        ensures
            state@ == empty_store(),
    {
        State::new()
    }
}

/// The store after the operator acknowledged `identity` at `now`.
pub open spec fn acknowledged_by(store: StateView, identity: Seq<char>, now: Timestamp) -> StateView {
    StateView {
        acknowledged: store.acknowledged.insert(identity, now),
        last_notified: store.last_notified,
        last_poll: store.last_poll,
    }
}

/// Records that the operator acknowledged `identity` at `now`, whether or
/// not any poll has reported that identity.
pub fn acknowledge(store: State, identity: String, now: Timestamp) -> (updated: State)
    ensures
        updated@ == acknowledged_by(store@, identity@, now),
{
    State {
        acknowledged: store.acknowledged.with(identity, now),
        last_notified: store.last_notified,
        last_poll: store.last_poll,
    }
}

} // verus!
