//! Resolution of the head revision of a logical item.

use vstd::prelude::*;

verus! {

/// A revision's address and its recorded creation time.
#[derive(Clone, Debug)]
pub struct RevisionStamp {
    pub hash: String,
    pub timestamp: i64,
}

/// What the ledger reports about an item's content address: whether it is
/// live, the actions that created it, and the updates recorded against it.
#[derive(Clone, Debug)]
pub struct EntryDetails {
    pub live: bool,
    pub actions: Vec<RevisionStamp>,
    pub updates: Vec<RevisionStamp>,
}

/// Which of several updates sharing the greatest timestamp becomes head.
#[derive(Clone, Copy, Debug, PartialEq, Eq, Structural)]
pub enum TieBreak {
    /// The one that comes last in the reported order.
    LastArrival,
    /// The one that comes first in the reported order.
    FirstArrival,
}

/// `i` is the head among `s`: its timestamp is the greatest, and no other
/// entry with that timestamp comes after it (or before it, for `FirstArrival`).
pub open spec fn is_head_index(s: Seq<RevisionStamp>, i: int, tie: TieBreak) -> bool {
    &&& 0 <= i < s.len()
    &&& forall|j: int| 0 <= j < s.len() ==> s[j].timestamp <= s[i].timestamp
    &&& match tie {
        TieBreak::LastArrival => forall|j: int| i < j < s.len() ==> s[j].timestamp < s[i].timestamp,
        TieBreak::FirstArrival => forall|j: int| 0 <= j < i ==> s[j].timestamp < s[i].timestamp,
    }
}

/// `r` is the head that resolving `d` gives: nothing for an item that is not
/// live; the creating revision when there are no updates; else the head update.
pub open spec fn resolves_to(d: EntryDetails, tie: TieBreak, r: Option<Seq<char>>) -> bool {
    match r {
        None => !d.live || (d.updates@.len() == 0 && d.actions@.len() == 0),
        Some(h) => d.live && if d.updates@.len() == 0 {
            d.actions@.len() > 0 && h == d.actions@[0].hash@
        } else {
            exists|i: int| is_head_index(d.updates@, i, tie) && h == d.updates@[i].hash@
        },
    }
}

/// The position of the head among a non-empty set of updates.
pub fn head_update_index(updates: &Vec<RevisionStamp>, tie: TieBreak) -> (r: usize)
    requires
        updates@.len() > 0,
    ensures
        is_head_index(updates@, r as int, tie),
{
    let mut best: usize = 0;
    let mut i: usize = 1;
    while i < updates.len()
        invariant
            1 <= i <= updates@.len(),
            0 <= best < i,
            forall|j: int| 0 <= j < i ==> updates@[j].timestamp <= updates@[best as int].timestamp,
            match tie {
                TieBreak::LastArrival => forall|j: int|
                    best < j < i ==> updates@[j].timestamp < updates@[best as int].timestamp,
                TieBreak::FirstArrival => forall|j: int|
                    0 <= j < best ==> updates@[j].timestamp < updates@[best as int].timestamp,
            },
        decreases updates@.len() - i,
    {
        let t = updates[i].timestamp;
        let b = updates[best].timestamp;
        let take = match tie {
            TieBreak::LastArrival => t >= b,
            TieBreak::FirstArrival => t > b,
        };
        if take {
            best = i;
        }
        i = i + 1;
    }
    best
}

/// The address of an item's head revision, ties broken by `tie`; none when
/// the item is not live or nothing created it.
pub fn resolve_head_with(details: &EntryDetails, tie: TieBreak) -> (r: Option<String>)
    ensures
        resolves_to(*details, tie, match r {
            Some(h) => Some(h@),
            None => None,
        }),
{
    if !details.live {
        return None;
    }
    if details.updates.len() == 0 {
        if details.actions.len() == 0 {
            return None;
        }
        return Some(details.actions[0].hash.clone());
    }
    let i = head_update_index(&details.updates, tie);
    let h = details.updates[i].hash.clone();
    assert(is_head_index(details.updates@, i as int, tie) && h@ == details.updates@[i as int].hash@);
    Some(h)
}

/// The address of an item's head revision, where among updates sharing the
/// greatest timestamp the last reported one wins.
pub fn resolve_head(details: &EntryDetails) -> (r: Option<String>)
    ensures
        resolves_to(*details, TieBreak::LastArrival, match r {
            Some(h) => Some(h@),
            None => None,
        }),
{
    resolve_head_with(details, TieBreak::LastArrival)
}

/// At most one position is the head of a set of updates.
pub proof fn lemma_head_index_unique(s: Seq<RevisionStamp>, i: int, k: int, tie: TieBreak)
    requires
        is_head_index(s, i, tie),
        is_head_index(s, k, tie),
    ensures
        i == k,
{
    if i < k {
        assert(s[i].timestamp <= s[k].timestamp && s[k].timestamp <= s[i].timestamp);
    } else if k < i {
        assert(s[i].timestamp <= s[k].timestamp && s[k].timestamp <= s[i].timestamp);
    }
}

/// Resolution is deterministic: the same reported state, in the same order,
/// always resolves to the same head.
pub proof fn lemma_resolution_deterministic(
    d: EntryDetails,
    tie: TieBreak,
    a: Option<Seq<char>>,
    b: Option<Seq<char>>,
)
    requires
        resolves_to(d, tie, a),
        resolves_to(d, tie, b),
    ensures
        a == b,
{
    if d.live && d.updates@.len() > 0 {
        let i = choose|i: int| is_head_index(d.updates@, i, tie) && a == Some(d.updates@[i].hash@);
        let k = choose|k: int| is_head_index(d.updates@, k, tie) && b == Some(d.updates@[k].hash@);
        lemma_head_index_unique(d.updates@, i, k, tie);
    }
}

/// An item that is live and has never been updated resolves to the revision
/// that created it, and to nothing else.
pub proof fn lemma_unupdated_item_resolves_to_itself(
    d: EntryDetails,
    tie: TieBreak,
    r: Option<Seq<char>>,
)
    requires
        d.live,
        d.actions@.len() > 0,
        d.updates@.len() == 0,
    ensures
        resolves_to(d, tie, Some(d.actions@[0].hash@)),
        resolves_to(d, tie, r) ==> r == Some(d.actions@[0].hash@),
{
}

/// The head carries the greatest timestamp among the original revision and
/// all its updates, when the original is no later than some update.
pub proof fn lemma_head_is_latest(d: EntryDetails, tie: TieBreak, h: Seq<char>)
    requires
        resolves_to(d, tie, Some(h)),
        d.actions@.len() > 0,
        d.updates@.len() == 0 || exists|k: int|
            0 <= k < d.updates@.len() && d.actions@[0].timestamp <= d.updates@[k].timestamp,
    ensures
        d.updates@.len() == 0 ==> h == d.actions@[0].hash@,
        d.updates@.len() > 0 ==> exists|i: int|
            0 <= i < d.updates@.len() && h == d.updates@[i].hash@ && d.actions@[0].timestamp
                <= d.updates@[i].timestamp && forall|j: int|
                0 <= j < d.updates@.len() ==> d.updates@[j].timestamp <= d.updates@[i].timestamp,
{
    if d.updates@.len() > 0 {
        let i = choose|i: int| is_head_index(d.updates@, i, tie) && h == d.updates@[i].hash@;
        let k = choose|k: int|
            0 <= k < d.updates@.len() && d.actions@[0].timestamp <= d.updates@[k].timestamp;
        assert(d.updates@[k].timestamp <= d.updates@[i].timestamp);
    }
}

} // verus!
