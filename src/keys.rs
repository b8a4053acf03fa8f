//! Composite index keys and the closed set of index namespaces.

use vstd::prelude::*;

verus! {

/// The index namespaces of the link graph, fixed at compile time.
#[derive(Clone, Copy, Debug, PartialEq, Eq, Structural)]
pub enum Namespace {
    Author,
    HiveAndType,
    Owner,
    Admin,
    Writer,
    Reader,
    ContentId,
    DynamicTag,
    Time,
    OriginalPointer,
    Updates,
}

/// A composite key: an ordered sequence of string components.
#[derive(Clone, Debug)]
pub struct IndexKey {
    pub components: Vec<String>,
}

/// The mathematical content of a sequence of strings.
pub open spec fn strings_view(v: Seq<String>) -> Seq<Seq<char>> {
    v.map_values(|s: String| s@)
}

impl View for IndexKey {
    type V = Seq<Seq<char>>;

    open spec fn view(&self) -> Seq<Seq<char>> {
        strings_view(self.components@)
    }
}

/// Two strings are equal, character by character.
pub fn str_equals(a: &str, b: &str) -> (r: bool)
    ensures
        r == (a@ == b@),
{
    let n = a.unicode_len();
    if n != b.unicode_len() {
        return false;
    }
    let mut i: usize = 0;
    while i < n
        invariant
            n == a@.len(),
            n == b@.len(),
            0 <= i <= n,
            forall|j: int| 0 <= j < i ==> a@[j] == b@[j],
        decreases n - i,
    {
        if a.get_char(i) != b.get_char(i) {
            return false;
        }
        i = i + 1;
    }
    assert(a@ =~= b@);
    true
}

impl IndexKey {
    /// Keys are equal exactly when their component sequences are equal,
    /// element-wise and in order.
    pub fn same_key(&self, other: &IndexKey) -> (r: bool)
        ensures
            r == (self@ == other@),
    {
        let n = self.components.len();
        if n != other.components.len() {
            assert(self@.len() != other@.len());
            return false;
        }
        let mut i: usize = 0;
        while i < n
            invariant
                n == self.components@.len(),
                n == other.components@.len(),
                0 <= i <= n,
                forall|j: int| 0 <= j < i ==> self@[j] == other@[j],
            decreases n - i,
        {
            if !(self.components[i] == other.components[i]) {
                assert(self@[i as int] != other@[i as int]);
                return false;
            }
            i = i + 1;
        }
        assert(self@ =~= other@);
        true
    }
}


/// What an index slot is: its namespace and its key's components.
pub type SlotView = (Namespace, Seq<Seq<char>>);

/// One place in the link graph: a composite key within a namespace.
#[derive(Clone, Debug)]
pub struct IndexSlot {
    pub namespace: Namespace,
    pub key: IndexKey,
}

impl View for IndexSlot {
    type V = SlotView;

    open spec fn view(&self) -> SlotView {
        (self.namespace, self.key@)
    }
}

/// The views of a sequence of slots.
pub open spec fn slots_view(v: Seq<IndexSlot>) -> Seq<SlotView> {
    v.map_values(|s: IndexSlot| s@)
}

/// A key of two components.
pub fn key_of_two(a: &str, b: &str) -> (r: IndexKey)
    ensures
        r@ == seq![a@, b@],
{
    let mut components: Vec<String> = Vec::new();
    components.push(a.to_owned());
    components.push(b.to_owned());
    let r = IndexKey { components };
    assert(r@ =~= seq![a@, b@]);
    r
}

/// A key of three components.
pub fn key_of_three(a: &str, b: &str, c: &str) -> (r: IndexKey)
    ensures
        r@ == seq![a@, b@, c@],
{
    let mut components: Vec<String> = Vec::new();
    components.push(a.to_owned());
    components.push(b.to_owned());
    components.push(c.to_owned());
    let r = IndexKey { components };
    assert(r@ =~= seq![a@, b@, c@]);
    r
}

pub open spec fn author_slot_spec(author: Seq<char>, content_type: Seq<char>) -> SlotView {
    (Namespace::Author, seq![author, content_type])
}

pub open spec fn hive_slot_spec(hive: Seq<char>, content_type: Seq<char>) -> SlotView {
    (Namespace::HiveAndType, seq![hive, content_type])
}

pub open spec fn content_id_slot_spec(hive: Seq<char>, content_id: Seq<char>) -> SlotView {
    (Namespace::ContentId, seq![hive, content_id])
}

pub open spec fn dynamic_slot_spec(
    hive: Seq<char>,
    content_type: Seq<char>,
    tag: Seq<char>,
) -> SlotView {
    (Namespace::DynamicTag, seq![hive, content_type, tag])
}

pub open spec fn time_slot_spec(author: Seq<char>, content_type: Seq<char>) -> SlotView {
    (Namespace::Time, seq![author, content_type])
}

impl IndexSlot {
    /// The by-author slot: (author, content type).
    pub fn author(author: &str, content_type: &str) -> (r: IndexSlot)
        ensures
            r@ == author_slot_spec(author@, content_type@),
    {
        IndexSlot { namespace: Namespace::Author, key: key_of_two(author, content_type) }
    }

    /// The by-hive-and-type slot: (hive, content type).
    pub fn hive(hive: &str, content_type: &str) -> (r: IndexSlot)
        ensures
            r@ == hive_slot_spec(hive@, content_type@),
    {
        IndexSlot { namespace: Namespace::HiveAndType, key: key_of_two(hive, content_type) }
    }

    /// The by-content-id slot: (hive, content id).
    pub fn content_id(hive: &str, content_id: &str) -> (r: IndexSlot)
        ensures
            r@ == content_id_slot_spec(hive@, content_id@),
    {
        IndexSlot { namespace: Namespace::ContentId, key: key_of_two(hive, content_id) }
    }

    /// The by-dynamic-tag slot: (hive, content type, tag).
    pub fn dynamic(hive: &str, content_type: &str, tag: &str) -> (r: IndexSlot)
        ensures
            r@ == dynamic_slot_spec(hive@, content_type@, tag@),
    {
        IndexSlot {
            namespace: Namespace::DynamicTag,
            key: key_of_three(hive, content_type, tag),
        }
    }

    /// The by-time partition slot: (author, content type).
    pub fn time(author: &str, content_type: &str) -> (r: IndexSlot)
        ensures
            r@ == time_slot_spec(author@, content_type@),
    {
        IndexSlot { namespace: Namespace::Time, key: key_of_two(author, content_type) }
    }

    /// Slots are equal exactly when namespaces and keys are equal.
    pub fn same_slot(&self, other: &IndexSlot) -> (r: bool)
        ensures
            r == (self@ == other@),
    {
        self.namespace == other.namespace && self.key.same_key(&other.key)
    }
}

} // verus!
