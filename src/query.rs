//! The read side: which index slot each list or get operation looks up, and
//! how the fetched revisions become its result.

use vstd::prelude::*;
use crate::acl::{acl_slot_spec, parse_acl_role, role_named};
use crate::content::{EncryptedContent, EncryptedContentResponse};
use crate::error::ContentError;
use crate::keys::{
    author_slot_spec, content_id_slot_spec, dynamic_slot_spec, hive_slot_spec, key_of_three,
    key_of_two, IndexSlot, Namespace,
};
use crate::time_index::{truncated, within, TimeIndex};

verus! {

/// List the items of one author and content type.
#[derive(Clone, Debug)]
pub struct ListByAuthorInput {
    pub author: String,
    pub content_type: String,
}

/// List the items of one hive and content type.
#[derive(Clone, Debug)]
pub struct ListByHiveInput {
    pub hive_id: String,
    pub content_type: String,
}

/// Get the item with a logical content id within a hive.
#[derive(Clone, Debug)]
pub struct ListByContentIdInput {
    pub hive_id: String,
    pub content_id: String,
}

/// List the items of a hive and type indexed under a caller-defined tag.
#[derive(Clone, Debug)]
pub struct ListByDynamicLinkInput {
    pub hive_id: String,
    pub content_type: String,
    pub dynamic_link: String,
}

/// List the items of a hive and type on which an entity holds a role.
/// The role is given by name: "Owner", "Admin", "Writer" or "Reader".
#[derive(Clone, Debug)]
pub struct ListByAclInput {
    pub hive_id: String,
    pub content_type: String,
    pub acl_role: String,
    pub entity_id: String,
}

/// List the items of an author and content type recorded within a time range.
#[derive(Clone, Debug)]
pub struct GetEncryptedContentByTimeAndAuthorInput {
    pub author: String,
    pub content_type: String,
    pub start_time: Option<i64>,
    pub end_time: Option<i64>,
    pub limit: Option<usize>,
}

/// List everything of an author and content type.
#[derive(Clone, Debug)]
pub struct GetAllEncryptedContentAndContentTypeInput {
    pub author: String,
    pub content_type: String,
}

/// List everything of a hive and content type.
#[derive(Clone, Debug)]
pub struct GetAllEncryptedContentByHiveAndContentTypeInput {
    pub hive_id: String,
    pub content_type: String,
}

/// The values present in `s`, in order.
pub open spec fn present<T>(s: Seq<Option<T>>) -> Seq<T>
    decreases s.len(),
{
    if s.len() == 0 {
        Seq::empty()
    } else {
        let rest = present(s.skip(1));
        match s[0] {
            Some(v) => seq![v] + rest,
            None => rest,
        }
    }
}

/// Keeps the values that are present, in order, and drops the rest.
pub fn keep_present<T>(items: Vec<Option<T>>) -> (r: Vec<T>)
    ensures
        r@ == present(items@),
{
    let ghost all = items@;
    let mut items = items;
    let mut r: Vec<T> = Vec::new();
    while items.len() > 0
        invariant
            r@ + present(items@) == present(all),
        decreases items@.len(),
    {
        let ghost before = items@;
        let first = items.remove(0);
        assert(items@ =~= before.skip(1));
        match first {
            Some(v) => {
                r.push(v);
                assert(r@ + present(items@) =~= present(all));
            },
            None => {},
        }
    }
    assert(present(items@) =~= Seq::<T>::empty());
    assert(r@ =~= present(all));
    r
}

/// The result of a list operation: every matched revision that could be
/// fetched, in index order. A revision that no longer resolves (its entry is
/// left dangling by a delete) is dropped, never reported as an error.
pub fn get_many_encrypted_content(fetched: Vec<Option<EncryptedContentResponse>>) -> (r: Vec<
    EncryptedContentResponse,
>)
    ensures
        r@ == present(fetched@),
{
    keep_present(fetched)
}

/// The response of get-by-id: the item's head revision and its address,
/// with the original address the caller asked by; `NotFound` when the item
/// has no head (withdrawn, never created, or its head no longer resolves).
pub fn get_encrypted_content(
    latest: Option<(EncryptedContent, String)>,
    original_hash: String,
) -> (r: Result<EncryptedContentResponse, ContentError>)
    ensures
        match latest {
            None => r == Err::<EncryptedContentResponse, ContentError>(ContentError::NotFound),
            Some((content, head)) => r matches Ok(resp) && resp.encrypted_content == content
                && resp.hash == head && resp.original_hash == original_hash,
        },
{
    match latest {
        None => Err(ContentError::NotFound),
        Some((content, head)) => Ok(EncryptedContentResponse::resolved(content, head, original_hash)),
    }
}

/// A list keeps exactly the revisions that could be fetched: one whose fetch
/// failed (a dangling entry left by a delete) is absent, every other stays,
/// and the list itself never fails.
pub proof fn lemma_present_exact<T>(s: Seq<Option<T>>)
    ensures
        forall|x: T| present(s).contains(x) <==> s.contains(Some(x)),
    decreases s.len(),
{
    if s.len() > 0 {
        let t = s.skip(1);
        lemma_present_exact(t);
        let rest = present(t);
        assert forall|x: T| s.contains(Some(x)) <==> (s[0] == Some(x) || t.contains(Some(x))) by {
            if s.contains(Some(x)) {
                let i = choose|i: int| 0 <= i < s.len() && s[i] == Some(x);
                if i > 0 {
                    assert(t[i - 1] == Some(x));
                }
            }
            if t.contains(Some(x)) {
                let i = choose|i: int| 0 <= i < t.len() && t[i] == Some(x);
                assert(s[i + 1] == Some(x));
            }
        }
        match s[0] {
            Some(v) => {
                assert forall|x: T| (seq![v] + rest).contains(x) <==> (x == v || rest.contains(x)) by {
                    if (seq![v] + rest).contains(x) {
                        let i = choose|i: int| 0 <= i < (seq![v] + rest).len() && (seq![v] + rest)[i] == x;
                        if i > 0 {
                            assert(rest[i - 1] == x);
                        }
                    }
                    if rest.contains(x) {
                        let i = choose|i: int| 0 <= i < rest.len() && rest[i] == x;
                        assert((seq![v] + rest)[i + 1] == x);
                    }
                    if x == v {
                        assert((seq![v] + rest)[0] == x);
                    }
                }
            },
            None => {},
        }
        assert forall|x: T| present(s).contains(x) <==> s.contains(Some(x)) by {
            assert(rest.contains(x) <==> t.contains(Some(x)));
            assert(s.contains(Some(x)) <==> (s[0] == Some(x) || t.contains(Some(x))));
            match s[0] {
                Some(v) => {
                    assert(present(s) == seq![v] + rest);
                    assert((seq![v] + rest).contains(x) <==> (x == v || rest.contains(x)));
                },
                None => {
                    assert(present(s) == rest);
                },
            }
        }
    } else {
        assert forall|x: T| !present(s).contains(x) && !s.contains(Some(x)) by {}
    }
}

/// The revision addresses among a lookup's link targets; targets that are
/// not revision addresses are skipped.
pub fn revision_targets(targets: Vec<Option<String>>) -> (r: Vec<String>)
    ensures
        r@ == present(targets@),
{
    keep_present(targets)
}

/// The slot that list-by-author looks up.
pub fn list_by_author(input: &ListByAuthorInput) -> (r: IndexSlot)
    ensures
        r@ == author_slot_spec(input.author@, input.content_type@),
{
    IndexSlot::author(input.author.as_str(), input.content_type.as_str())
}

/// The slot that lists everything of an author and content type: the
/// owner-role namespace, keyed by (author, content type).
pub fn get_all_encrypted_content_by_author_and_content_type(
    input: &GetAllEncryptedContentAndContentTypeInput,
) -> (r: IndexSlot)
    ensures
        r@ == (Namespace::Owner, seq![input.author@, input.content_type@]),
{
    IndexSlot {
        namespace: Namespace::Owner,
        key: key_of_two(input.author.as_str(), input.content_type.as_str()),
    }
}

/// The slot that list-by-hive-and-type looks up.
pub fn list_by_hive_link(input: &ListByHiveInput) -> (r: IndexSlot)
    ensures
        r@ == hive_slot_spec(input.hive_id@, input.content_type@),
{
    IndexSlot::hive(input.hive_id.as_str(), input.content_type.as_str())
}

/// The slot that lists everything of a hive and content type.
pub fn get_all_encrypted_content_by_hive_and_content_type(
    input: &GetAllEncryptedContentByHiveAndContentTypeInput,
) -> (r: IndexSlot)
    ensures
        r@ == hive_slot_spec(input.hive_id@, input.content_type@),
{
    IndexSlot::hive(input.hive_id.as_str(), input.content_type.as_str())
}

/// The slot that list-by-dynamic-tag looks up.
pub fn list_by_dynamic_link(input: &ListByDynamicLinkInput) -> (r: IndexSlot)
    ensures
        r@ == dynamic_slot_spec(input.hive_id@, input.content_type@, input.dynamic_link@),
{
    IndexSlot::dynamic(
        input.hive_id.as_str(),
        input.content_type.as_str(),
        input.dynamic_link.as_str(),
    )
}

/// The slot that get-by-content-id looks up.
pub fn content_id_slot(input: &ListByContentIdInput) -> (r: IndexSlot)
    ensures
        r@ == content_id_slot_spec(input.hive_id@, input.content_id@),
{
    IndexSlot::content_id(input.hive_id.as_str(), input.content_id.as_str())
}

/// The revision that get-by-content-id resolves: the first one indexed under
/// the id, or `NotFound` when there is none.
pub fn get_by_content_id_link(targets: &Vec<String>) -> (r: Result<String, ContentError>)
    ensures
        targets@.len() == 0 ==> r == Err::<String, ContentError>(ContentError::NotFound),
        targets@.len() > 0 ==> r == Ok::<String, ContentError>(targets@[0]),
{
    if targets.len() == 0 {
        Err(ContentError::NotFound)
    } else {
        Ok(targets[0].clone())
    }
}

/// The slot that list-by-acl-role looks up: the named role's namespace,
/// keyed by (hive, content type, entity). An unknown role name is refused
/// before any lookup.
pub fn list_by_acl_link(input: &ListByAclInput) -> (r: Result<IndexSlot, ContentError>)
    ensures
        match role_named(input.acl_role@) {
            Some(role) => r matches Ok(s) && s@ == acl_slot_spec(
                role,
                input.hive_id@,
                input.content_type@,
                input.entity_id@,
            ),
            None => r == Err::<IndexSlot, ContentError>(ContentError::InvalidAclRole),
        },
{
    let role = parse_acl_role(input.acl_role.as_str())?;
    Ok(
        IndexSlot {
            namespace: role.namespace(),
            key: key_of_three(
                input.hive_id.as_str(),
                input.content_type.as_str(),
                input.entity_id.as_str(),
            ),
        },
    )
}

/// The revisions that a time-range query returns from `index`, which the
/// caller fills from the (author, content type) partition that the input
/// names (`IndexSlot::time`): those recorded within [start, end], oldest first, at
/// most `limit` of them.
pub fn get_encrypted_content_by_time_and_author(
    input: &GetEncryptedContentByTimeAndAuthorInput,
    index: &TimeIndex,
) -> (r: Vec<String>)
    requires
        index.wf(),
    ensures
        r@.len() == truncated(within(index@, input.start_time, input.end_time), input.limit).len(),
        forall|i: int|
            0 <= i < r@.len() ==> r@[i] == truncated(
                within(index@, input.start_time, input.end_time),
                input.limit,
            )[i].revision,
{
    let found = index.query(input.start_time, input.end_time, input.limit);
    let mut r: Vec<String> = Vec::new();
    let mut i: usize = 0;
    while i < found.len()
        invariant
            0 <= i <= found@.len(),
            r@.len() == i,
            forall|j: int| 0 <= j < i ==> r@[j] == found@[j].revision,
        decreases found@.len() - i,
    {
        r.push(found[i].revision.clone());
        i = i + 1;
    }
    r
}

} // verus!
