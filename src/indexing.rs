//! The index writes that one new revision fans out into.

use vstd::prelude::*;
use crate::acl::{
    acl_slot_spec, acl_slots, members, role_members, role_slots, AclRole,
};
use crate::content::{EncryptedContent, EncryptedContentResponse};
use crate::error::ContentError;
use crate::revisions::{self_pointer, PointerLink};
use crate::keys::{
    Namespace, author_slot_spec, content_id_slot_spec, dynamic_slot_spec, hive_slot_spec, key_of_three,
    slots_view, strings_view, time_slot_spec, IndexSlot, SlotView,
};

verus! {

/// The tags of a create request; none when it gave none.
pub open spec fn tags_view(tags: Option<Vec<String>>) -> Seq<Seq<char>> {
    match tags {
        Some(v) => strings_view(v@),
        None => Seq::empty(),
    }
}

/// One by-dynamic-tag slot per tag, in tag order.
pub open spec fn dynamic_slots(
    hive: Seq<char>,
    content_type: Seq<char>,
    tags: Seq<Seq<char>>,
) -> Seq<SlotView> {
    tags.map_values(|t: Seq<char>| dynamic_slot_spec(hive, content_type, t))
}

/// Every slot that a revision created by `author` is indexed under, in the
/// order the writes are issued: by author; by access role; by hive and type
/// unless the hive is empty; by content id; by each dynamic tag; by time.
pub open spec fn create_slots(
    content: EncryptedContent,
    author: Seq<char>,
    tags: Seq<Seq<char>>,
) -> Seq<SlotView> {
    let hive = content.header.hive_id@;
    let ty = content.header.content_type@;
    seq![author_slot_spec(author, ty)] + acl_slots(content.header.acl@, hive, ty) + (if hive.len()
        == 0 {
        Seq::empty()
    } else {
        seq![hive_slot_spec(hive, ty)]
    }) + seq![content_id_slot_spec(hive, content.header.id@)] + dynamic_slots(hive, ty, tags)
        + seq![time_slot_spec(author, ty)]
}

/// Appends the slot of each member of `role`.
fn push_role_slots(out: &mut Vec<IndexSlot>, content: &EncryptedContent, role: AclRole)
    ensures
        slots_view(final(out)@) == slots_view(old(out)@) + role_slots(
            content.header.acl@,
            role,
            content.header.hive_id@,
            content.header.content_type@,
        ),
{
    let hive = &content.header.hive_id;
    let ty = &content.header.content_type;
    let entities = members(&content.header.acl, role);
    let ghost want = role_slots(content.header.acl@, role, hive@, ty@);
    let ghost start = slots_view(out@);
    let mut i: usize = 0;
    while i < entities.len()
        invariant
            0 <= i <= entities@.len(),
            strings_view(entities@) == role_members(content.header.acl@, role),
            want.len() == entities@.len(),
            slots_view(out@) == start + want.take(i as int),
            hive == &content.header.hive_id,
            ty == &content.header.content_type,
            want == role_slots(content.header.acl@, role, hive@, ty@),
        decreases entities@.len() - i,
    {
        let ghost prev = out@;
        let slot = IndexSlot {
            namespace: role.namespace(),
            key: key_of_three(hive.as_str(), ty.as_str(), entities[i].as_str()),
        };
        out.push(slot);
        assert(want[i as int] == acl_slot_spec(role, hive@, ty@, entities@[i as int]@));
        assert(slots_view(out@) =~= slots_view(prev).push(want[i as int]));
        assert(want.take(i + 1) =~= want.take(i as int).push(want[i as int]));
        i = i + 1;
    }
    assert(want.take(want.len() as int) =~= want);
}

/// The links that index a revision under its access-control list: one for
/// the owner, then one per admin, per effective writer (admins and writers)
/// and per effective reader (admins, writers and readers), each keyed by
/// (hive, content type, entity) in its role's namespace.
pub fn create_acl_links(content: &EncryptedContent) -> (r: Vec<IndexSlot>)
    ensures
        slots_view(r@) == acl_slots(
            content.header.acl@,
            content.header.hive_id@,
            content.header.content_type@,
        ),
{
    let mut r: Vec<IndexSlot> = Vec::new();
    assert(slots_view(r@) =~= Seq::empty());
    push_role_slots(&mut r, content, AclRole::Owner);
    push_role_slots(&mut r, content, AclRole::Admin);
    push_role_slots(&mut r, content, AclRole::Writer);
    push_role_slots(&mut r, content, AclRole::Reader);
    assert(slots_view(r@) =~= acl_slots(
        content.header.acl@,
        content.header.hive_id@,
        content.header.content_type@,
    ));
    r
}

/// Every index slot that a new revision by `author` must be linked from,
/// given the dynamic tags of its create request.
pub fn create_index_links(
    content: &EncryptedContent,
    author: &str,
    dynamic_links: &Option<Vec<String>>,
) -> (r: Vec<IndexSlot>)
    ensures
        slots_view(r@) == create_slots(*content, author@, tags_view(*dynamic_links)),
{
    let hive = content.header.hive_id.as_str();
    let ty = content.header.content_type.as_str();
    let ghost tags = tags_view(*dynamic_links);
    let ghost acl_part = acl_slots(content.header.acl@, hive@, ty@);
    let ghost hive_part = if hive@.len() == 0 {
        Seq::<SlotView>::empty()
    } else {
        seq![hive_slot_spec(hive@, ty@)]
    };
    let mut r: Vec<IndexSlot> = Vec::new();
    r.push(IndexSlot::author(author, ty));
    assert(slots_view(r@) =~= seq![author_slot_spec(author@, ty@)]);
    let mut acl = create_acl_links(content);
    let ghost prev = r@;
    let ghost acl_v = acl@;
    r.append(&mut acl);
    assert(r@ == prev + acl_v);
    assert(slots_view(r@) =~= slots_view(prev) + acl_part);
    let ghost after_acl = slots_view(r@);
    if hive.unicode_len() != 0 {
        r.push(IndexSlot::hive(hive, ty));
        assert(slots_view(r@) =~= after_acl + hive_part);
    } else {
        assert(slots_view(r@) =~= after_acl + hive_part);
    }
    let ghost prev2 = r@;
    r.push(IndexSlot::content_id(hive, content.header.id.as_str()));
    assert(slots_view(r@) =~= slots_view(prev2).push(
        content_id_slot_spec(hive@, content.header.id@),
    ));
    let ghost before_tags = slots_view(r@);
    if let Some(list) = dynamic_links {
        let mut i: usize = 0;
        while i < list.len()
            invariant
                0 <= i <= list@.len(),
                tags == strings_view(list@),
                hive@ == content.header.hive_id@,
                ty@ == content.header.content_type@,
                slots_view(r@) == before_tags + dynamic_slots(hive@, ty@, tags.take(i as int)),
            decreases list@.len() - i,
        {
            let ghost prev = r@;
            r.push(IndexSlot::dynamic(hive, ty, list[i].as_str()));
            assert(tags.take(i + 1) =~= tags.take(i as int).push(tags[i as int]));
            assert(dynamic_slots(hive@, ty@, tags.take(i + 1)) =~= dynamic_slots(
                hive@,
                ty@,
                tags.take(i as int),
            ).push(dynamic_slot_spec(hive@, ty@, tags[i as int])));
            assert(slots_view(r@) =~= slots_view(prev).push(
                dynamic_slot_spec(hive@, ty@, tags[i as int]),
            ));
            i = i + 1;
        }
        assert(tags.take(list@.len() as int) =~= tags);
    } else {
        assert(dynamic_slots(hive@, ty@, tags) =~= Seq::empty());
        assert(slots_view(r@) =~= before_tags + dynamic_slots(hive@, ty@, tags));
    }
    let ghost prev3 = r@;
    r.push(IndexSlot::time(author, ty));
    assert(slots_view(r@) =~= slots_view(prev3).push(time_slot_spec(author@, ty@)));
    assert(slots_view(r@) =~= create_slots(*content, author@, tags));
    r
}


/// What a create writes once its revision is stored at `address`: the
/// response to return, the revision's self-pointer, and its index links.
pub struct CreatePlan {
    pub response: EncryptedContentResponse,
    pub original_pointer: PointerLink,
    pub index_links: Vec<IndexSlot>,
}

/// Plans a create by `author` whose revision the ledger stored at `address`:
/// the revision is its own original, points at itself, and is linked from
/// every slot it belongs to.
pub fn create_encrypted_content(
    content: EncryptedContent,
    dynamic_links: &Option<Vec<String>>,
    author: &str,
    address: String,
) -> (r: CreatePlan)
    ensures
        r.response.encrypted_content == content,
        r.response.hash@ == address@,
        r.response.original_hash@ == address@,
        r.original_pointer@ == self_pointer(address@),
        slots_view(r.index_links@) == create_slots(content, author@, tags_view(*dynamic_links)),
{
    let index_links = create_index_links(&content, author, dynamic_links);
    let original_pointer = PointerLink::original_pointer(&address);
    let response = EncryptedContentResponse::created(content, address);
    CreatePlan { response, original_pointer, index_links }
}

/// The outcome of a create or update once every index write was attempted
/// (each succeeded or not, independently): `PartialIndexFailure` when any
/// failed. The revision itself stays written either way.
pub fn index_writes_outcome(succeeded: &Vec<bool>) -> (r: Result<(), ContentError>)
    ensures
        r is Ok <==> forall|i: int| 0 <= i < succeeded@.len() ==> succeeded@[i],
        r is Err ==> r == Err::<(), ContentError>(ContentError::PartialIndexFailure),
{
    let mut i: usize = 0;
    while i < succeeded.len()
        invariant
            0 <= i <= succeeded@.len(),
            forall|j: int| 0 <= j < i ==> succeeded@[j],
        decreases succeeded@.len() - i,
    {
        if !succeeded[i] {
            return Err(ContentError::PartialIndexFailure);
        }
        i = i + 1;
    }
    Ok(())
}

/// An element of a concatenation is an element of one of its parts.
proof fn lemma_concat_contains<A>(a: Seq<A>, b: Seq<A>, x: A)
    ensures
        (a + b).contains(x) <==> (a.contains(x) || b.contains(x)),
{
    if (a + b).contains(x) {
        let i = choose|i: int| 0 <= i < (a + b).len() && (a + b)[i] == x;
        if i >= a.len() {
            assert(b[i - a.len()] == x);
        }
    }
    if a.contains(x) {
        let i = choose|i: int| 0 <= i < a.len() && a[i] == x;
        assert((a + b)[i] == x);
    }
    if b.contains(x) {
        let i = choose|i: int| 0 <= i < b.len() && b[i] == x;
        assert((a + b)[a.len() + i] == x);
    }
}

/// A role's slots hold the slot of exactly its members, under its hive and type.
proof fn lemma_role_slots_contains(
    acl: crate::acl::AclView,
    role: AclRole,
    hive: Seq<char>,
    ty: Seq<char>,
    other: AclRole,
    h: Seq<char>,
    t: Seq<char>,
    e: Seq<char>,
)
    ensures
        role_slots(acl, role, hive, ty).contains(acl_slot_spec(other, h, t, e)) <==> (role
            == other && hive == h && ty == t && role_members(acl, role).contains(e)),
{
    let s = role_slots(acl, role, hive, ty);
    let m = role_members(acl, role);
    let x = acl_slot_spec(other, h, t, e);
    if s.contains(x) {
        let i = choose|i: int| 0 <= i < s.len() && s[i] == x;
        assert(s[i] == acl_slot_spec(role, hive, ty, m[i]));
        assert(x.1[0] == h && x.1[1] == t && x.1[2] == e);
        assert(s[i].1[0] == hive && s[i].1[1] == ty && s[i].1[2] == m[i]);
        assert(role == other);
        assert(m[i] == e);
    }
    if role == other && hive == h && ty == t && m.contains(e) {
        let i = choose|i: int| 0 <= i < m.len() && m[i] == e;
        assert(s[i] == x);
    }
}

/// A tag's slots hold the slot of exactly the item's tags, under its hive and type.
proof fn lemma_dynamic_slots_contains(
    hive: Seq<char>,
    ty: Seq<char>,
    tags: Seq<Seq<char>>,
    h: Seq<char>,
    t: Seq<char>,
    tag: Seq<char>,
)
    ensures
        dynamic_slots(hive, ty, tags).contains(dynamic_slot_spec(h, t, tag)) <==> (hive == h
            && ty == t && tags.contains(tag)),
{
    let s = dynamic_slots(hive, ty, tags);
    let x = dynamic_slot_spec(h, t, tag);
    if s.contains(x) {
        let i = choose|i: int| 0 <= i < s.len() && s[i] == x;
        assert(s[i] == dynamic_slot_spec(hive, ty, tags[i]));
        assert(x.1[0] == h && x.1[1] == t && x.1[2] == tag);
        assert(s[i].1[0] == hive && s[i].1[1] == ty && s[i].1[2] == tags[i]);
    }
    if hive == h && ty == t && tags.contains(tag) {
        let i = choose|i: int| 0 <= i < tags.len() && tags[i] == tag;
        assert(s[i] == x);
    }
}

/// The slots of the parts of a new item's index writes that are not its
/// access-control slots.
proof fn lemma_create_slots_parts(content: EncryptedContent, author: Seq<char>, tags: Seq<Seq<char>>)
    ensures
        ({
            let hive = content.header.hive_id@;
            let ty = content.header.content_type@;
            let hive_part = if hive.len() == 0 {
                Seq::<SlotView>::empty()
            } else {
                seq![hive_slot_spec(hive, ty)]
            };
            let rest = hive_part + seq![content_id_slot_spec(hive, content.header.id@)]
                + dynamic_slots(hive, ty, tags) + seq![time_slot_spec(author, ty)];
            &&& create_slots(content, author, tags) == seq![author_slot_spec(author, ty)]
                + acl_slots(content.header.acl@, hive, ty) + rest
            &&& forall|i: int| 0 <= i < rest.len() ==> rest[i].0 == Namespace::HiveAndType
                || rest[i].0 == Namespace::ContentId || rest[i].0 == Namespace::DynamicTag
                || rest[i].0 == Namespace::Time
        }),
{
    let hive = content.header.hive_id@;
    let ty = content.header.content_type@;
    let hive_part = if hive.len() == 0 {
        Seq::<SlotView>::empty()
    } else {
        seq![hive_slot_spec(hive, ty)]
    };
    let rest = hive_part + seq![content_id_slot_spec(hive, content.header.id@)] + dynamic_slots(
        hive,
        ty,
        tags,
    ) + seq![time_slot_spec(author, ty)];
    assert(create_slots(content, author, tags) =~= seq![author_slot_spec(author, ty)] + acl_slots(
        content.header.acl@,
        hive,
        ty,
    ) + rest);
}

/// Looking up an access role finds a new item exactly for the entities that
/// hold the role on it (the owner; admins; admins and writers; admins,
/// writers and readers), under the item's own hive and content type.
pub proof fn lemma_acl_lookup_finds_role_members(
    content: EncryptedContent,
    author: Seq<char>,
    tags: Seq<Seq<char>>,
    role: AclRole,
    hive: Seq<char>,
    ty: Seq<char>,
    entity: Seq<char>,
)
    ensures
        create_slots(content, author, tags).contains(acl_slot_spec(role, hive, ty, entity)) <==> (
        hive == content.header.hive_id@ && ty == content.header.content_type@ && role_members(
            content.header.acl@,
            role,
        ).contains(entity)),
{
    let h = content.header.hive_id@;
    let t = content.header.content_type@;
    let acl = content.header.acl@;
    let x = acl_slot_spec(role, hive, ty, entity);
    lemma_create_slots_parts(content, author, tags);
    let hive_part = if h.len() == 0 {
        Seq::<SlotView>::empty()
    } else {
        seq![hive_slot_spec(h, t)]
    };
    let rest = hive_part + seq![content_id_slot_spec(h, content.header.id@)] + dynamic_slots(
        h,
        t,
        tags,
    ) + seq![time_slot_spec(author, t)];
    let first = seq![author_slot_spec(author, t)];
    lemma_concat_contains(first + acl_slots(acl, h, t), rest, x);
    lemma_concat_contains(first, acl_slots(acl, h, t), x);
    if first.contains(x) {
        assert(first[0].0 == Namespace::Author);
    }
    if rest.contains(x) {
        let i = choose|i: int| 0 <= i < rest.len() && rest[i] == x;
    }
    let r0 = role_slots(acl, AclRole::Owner, h, t);
    let r1 = role_slots(acl, AclRole::Admin, h, t);
    let r2 = role_slots(acl, AclRole::Writer, h, t);
    let r3 = role_slots(acl, AclRole::Reader, h, t);
    lemma_concat_contains(r0 + r1 + r2, r3, x);
    lemma_concat_contains(r0 + r1, r2, x);
    lemma_concat_contains(r0, r1, x);
    lemma_role_slots_contains(acl, AclRole::Owner, h, t, role, hive, ty, entity);
    lemma_role_slots_contains(acl, AclRole::Admin, h, t, role, hive, ty, entity);
    lemma_role_slots_contains(acl, AclRole::Writer, h, t, role, hive, ty, entity);
    lemma_role_slots_contains(acl, AclRole::Reader, h, t, role, hive, ty, entity);
}

/// Looking up a dynamic tag finds a new item exactly when the item was
/// created with that tag, under its own hive and content type: items created
/// under other tags are never found.
pub proof fn lemma_dynamic_lookup_finds_tagged(
    content: EncryptedContent,
    author: Seq<char>,
    tags: Seq<Seq<char>>,
    hive: Seq<char>,
    ty: Seq<char>,
    tag: Seq<char>,
)
    ensures
        create_slots(content, author, tags).contains(dynamic_slot_spec(hive, ty, tag)) <==> (hive
            == content.header.hive_id@ && ty == content.header.content_type@ && tags.contains(tag)),
{
    let h = content.header.hive_id@;
    let t = content.header.content_type@;
    let acl = content.header.acl@;
    let x = dynamic_slot_spec(hive, ty, tag);
    lemma_create_slots_parts(content, author, tags);
    let hive_part = if h.len() == 0 {
        Seq::<SlotView>::empty()
    } else {
        seq![hive_slot_spec(h, t)]
    };
    let first = seq![author_slot_spec(author, t)];
    let mid = hive_part + seq![content_id_slot_spec(h, content.header.id@)];
    let dynp = dynamic_slots(h, t, tags);
    let last = seq![time_slot_spec(author, t)];
    assert(create_slots(content, author, tags) =~= first + acl_slots(acl, h, t) + mid + dynp
        + last);
    lemma_concat_contains(first + acl_slots(acl, h, t) + mid + dynp, last, x);
    lemma_concat_contains(first + acl_slots(acl, h, t) + mid, dynp, x);
    lemma_concat_contains(first + acl_slots(acl, h, t), mid, x);
    lemma_concat_contains(first, acl_slots(acl, h, t), x);
    if last.contains(x) {
        assert(last[0].0 == Namespace::Time);
    }
    if mid.contains(x) {
        let i = choose|i: int| 0 <= i < mid.len() && mid[i] == x;
        assert(mid[i].0 == Namespace::HiveAndType || mid[i].0 == Namespace::ContentId);
    }
    if first.contains(x) {
        assert(first[0].0 == Namespace::Author);
    }
    if acl_slots(acl, h, t).contains(x) {
        let s = acl_slots(acl, h, t);
        let i = choose|i: int| 0 <= i < s.len() && s[i] == x;
        let r0 = role_slots(acl, AclRole::Owner, h, t);
        let r1 = role_slots(acl, AclRole::Admin, h, t);
        let r2 = role_slots(acl, AclRole::Writer, h, t);
        let r3 = role_slots(acl, AclRole::Reader, h, t);
        lemma_concat_contains(r0 + r1 + r2, r3, x);
        lemma_concat_contains(r0 + r1, r2, x);
        lemma_concat_contains(r0, r1, x);
        assert(forall|k: int| 0 <= k < r0.len() ==> r0[k].0 == Namespace::Owner);
        assert(forall|k: int| 0 <= k < r1.len() ==> r1[k].0 == Namespace::Admin);
        assert(forall|k: int| 0 <= k < r2.len() ==> r2[k].0 == Namespace::Writer);
        assert(forall|k: int| 0 <= k < r3.len() ==> r3[k].0 == Namespace::Reader);
        if r0.contains(x) {
            let k = choose|k: int| 0 <= k < r0.len() && r0[k] == x;
        }
        if r1.contains(x) {
            let k = choose|k: int| 0 <= k < r1.len() && r1[k] == x;
        }
        if r2.contains(x) {
            let k = choose|k: int| 0 <= k < r2.len() && r2[k] == x;
        }
        if r3.contains(x) {
            let k = choose|k: int| 0 <= k < r3.len() && r3[k] == x;
        }
    }
    lemma_dynamic_slots_contains(h, t, tags, hive, ty, tag);
}

} // verus!
