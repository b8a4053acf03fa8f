use humm_content::content::{EncryptedContent, EncryptedContentHeader, EncryptedContentResponse};
use humm_content::acl::Acl;
use humm_content::error::ContentError;
use humm_content::keys::Namespace;
use humm_content::query::{
    content_id_slot, get_all_encrypted_content_by_author_and_content_type,
    get_all_encrypted_content_by_hive_and_content_type, get_by_content_id_link,
    get_encrypted_content, get_encrypted_content_by_time_and_author, get_many_encrypted_content, list_by_author,
    list_by_hive_link, revision_targets, GetAllEncryptedContentAndContentTypeInput,
    GetAllEncryptedContentByHiveAndContentTypeInput, GetEncryptedContentByTimeAndAuthorInput,
    ListByAuthorInput, ListByContentIdInput, ListByHiveInput,
};
use humm_content::resolver::{
    head_update_index, resolve_head, resolve_head_with, EntryDetails, RevisionStamp, TieBreak,
};
use humm_content::revisions::{update_pointer_links, PointerLink};
use humm_content::time_index::{TimeEntry, TimeIndex};

fn s(x: &str) -> String {
    x.to_string()
}

fn stamp(h: &str, t: i64) -> RevisionStamp {
    RevisionStamp { hash: s(h), timestamp: t }
}

fn details(live: bool, updates: Vec<RevisionStamp>) -> EntryDetails {
    EntryDetails { live, actions: vec![stamp("orig", 1)], updates }
}

fn content(id: &str) -> EncryptedContent {
    let a = Acl { owner: s("O"), admin: vec![], writer: vec![], reader: vec![] };
    EncryptedContent {
        header: EncryptedContentHeader {
            id: s(id),
            hive_id: s("hive"),
            content_type: s("note"),
            revision_author_signing_public_key: s("key"),
            acl: a.clone(),
            public_key_acl: a,
        },
        bytes: id.as_bytes().to_vec(),
    }
}

fn index(ts: &[i64]) -> TimeIndex {
    let mut idx = TimeIndex::new();
    for (i, t) in ts.iter().enumerate() {
        idx.append(TimeEntry { timestamp: *t, revision: format!("r{}", i) });
    }
    idx
}

fn stamps_of(v: &[TimeEntry]) -> Vec<i64> {
    v.iter().map(|e| e.timestamp).collect()
}

#[test]
fn head_is_the_latest_update() {
    let d = details(true, vec![stamp("u1", 5), stamp("u2", 30), stamp("u3", 12)]);
    assert_eq!(resolve_head(&d), Some(s("u2")));
    assert_eq!(resolve_head(&d), resolve_head(&d));
}

#[test]
fn head_ties_follow_the_chosen_order() {
    let ups = vec![stamp("u1", 5), stamp("u2", 9), stamp("u3", 9), stamp("u4", 3)];
    let d = details(true, ups.clone());
    assert_eq!(resolve_head_with(&d, TieBreak::LastArrival), Some(s("u3")));
    assert_eq!(resolve_head_with(&d, TieBreak::FirstArrival), Some(s("u2")));
    assert_eq!(resolve_head(&d), Some(s("u3")));
    assert_eq!(head_update_index(&ups, TieBreak::LastArrival), 2);
    assert_eq!(head_update_index(&ups, TieBreak::FirstArrival), 1);
}

#[test]
fn head_without_updates_is_the_original() {
    assert_eq!(resolve_head(&details(true, vec![])), Some(s("orig")));
}

#[test]
fn withdrawn_item_has_no_head() {
    assert_eq!(resolve_head(&details(false, vec![stamp("u1", 5)])), None);
    let empty = EntryDetails { live: true, actions: vec![], updates: vec![] };
    assert_eq!(resolve_head(&empty), None);
}

#[test]
fn time_range_query_is_inclusive() {
    let idx = index(&[10, 20, 30, 40]);
    let r = idx.query(Some(15), Some(35), None);
    assert_eq!(stamps_of(&r), vec![20, 30]);
    let one = idx.query(Some(15), Some(35), Some(1));
    assert_eq!(stamps_of(&one), vec![20]);
    assert_eq!(stamps_of(&idx.query(Some(20), Some(30), None)), vec![20, 30]);
}

#[test]
fn time_range_open_bounds_and_limits() {
    let idx = index(&[40, 10, 30, 20]);
    assert_eq!(stamps_of(idx.entries()), vec![10, 20, 30, 40]);
    assert_eq!(stamps_of(&idx.query(None, Some(25), None)), vec![10, 20]);
    assert_eq!(stamps_of(&idx.query(Some(25), None, None)), vec![30, 40]);
    assert_eq!(stamps_of(&idx.query(None, None, Some(3))), vec![10, 20, 30]);
    assert!(idx.query(None, None, Some(0)).is_empty());
    assert!(idx.query(Some(50), None, None).is_empty());
    assert!(idx.query(Some(30), Some(20), None).is_empty());
    assert!(TimeIndex::new().query(None, None, None).is_empty());
}

#[test]
fn equal_timestamps_keep_append_order() {
    let idx = index(&[5, 5, 1, 5]);
    let revs: Vec<String> = idx.entries().iter().map(|e| e.revision.clone()).collect();
    assert_eq!(revs, vec![s("r2"), s("r0"), s("r1"), s("r3")]);
}

#[test]
fn time_and_author_query_returns_revisions() {
    let idx = index(&[10, 20, 30, 40]);
    let input = GetEncryptedContentByTimeAndAuthorInput {
        author: s("me"),
        content_type: s("note"),
        start_time: Some(15),
        end_time: Some(35),
        limit: None,
    };
    assert_eq!(get_encrypted_content_by_time_and_author(&input, &idx), vec![s("r1"), s("r2")]);
}

#[test]
fn dangling_entries_are_dropped_from_lists() {
    let live = EncryptedContentResponse::created(content("a"), s("h1"));
    let other = EncryptedContentResponse::created(content("b"), s("h3"));
    let r = get_many_encrypted_content(vec![Some(live), None, Some(other), None]);
    let hashes: Vec<String> = r.iter().map(|x| x.hash.clone()).collect();
    assert_eq!(hashes, vec![s("h1"), s("h3")]);
    assert!(get_many_encrypted_content(vec![None]).is_empty());
}

#[test]
fn non_revision_targets_are_skipped() {
    let r = revision_targets(vec![None, Some(s("h1")), None, Some(s("h2"))]);
    assert_eq!(r, vec![s("h1"), s("h2")]);
}

#[test]
fn content_id_lookup_takes_the_first_target() {
    let slot = content_id_slot(&ListByContentIdInput { hive_id: s("hive"), content_id: s("x") });
    assert_eq!(slot.namespace, Namespace::ContentId);
    assert_eq!(slot.key.components, vec![s("hive"), s("x")]);
    assert_eq!(get_by_content_id_link(&vec![s("h1"), s("h2")]), Ok(s("h1")));
    assert_eq!(get_by_content_id_link(&vec![]), Err(ContentError::NotFound));
}

#[test]
fn list_slots_use_their_namespaces() {
    let a = list_by_author(&ListByAuthorInput { author: s("me"), content_type: s("note") });
    assert_eq!(a.namespace, Namespace::Author);
    assert_eq!(a.key.components, vec![s("me"), s("note")]);
    let h = list_by_hive_link(&ListByHiveInput { hive_id: s("hive"), content_type: s("note") });
    assert_eq!(h.namespace, Namespace::HiveAndType);
    assert_eq!(h.key.components, vec![s("hive"), s("note")]);
    let ga = get_all_encrypted_content_by_author_and_content_type(
        &GetAllEncryptedContentAndContentTypeInput { author: s("me"), content_type: s("t") },
    );
    assert_eq!(ga.namespace, Namespace::Owner);
    assert_eq!(ga.key.components, vec![s("me"), s("t")]);
    let gh = get_all_encrypted_content_by_hive_and_content_type(
        &GetAllEncryptedContentByHiveAndContentTypeInput { hive_id: s("h"), content_type: s("t") },
    );
    assert_eq!(gh.namespace, Namespace::HiveAndType);
}

#[test]
fn original_address_survives_updates() {
    let created = PointerLink::original_pointer(&s("h0"));
    assert_eq!((created.base.as_str(), created.target.as_str()), ("h0", "h0"));
    assert_eq!(created.namespace, Namespace::OriginalPointer);
    let mut pointer = created.target.clone();
    for next in ["h1", "h2", "h3"] {
        let links = update_pointer_links(&vec![pointer.clone()], &s(next)).unwrap();
        assert_eq!(links.len(), 2);
        assert_eq!((links[0].base.as_str(), links[0].target.as_str()), ("h0", next));
        assert_eq!(links[0].namespace, Namespace::Updates);
        assert_eq!((links[1].base.as_str(), links[1].target.as_str()), (next, "h0"));
        assert_eq!(links[1].namespace, Namespace::OriginalPointer);
        pointer = links[1].target.clone();
    }
    assert_eq!(pointer, "h0");
    let r = EncryptedContentResponse::resolved(content("a"), s("h3"), pointer);
    assert_eq!((r.hash.as_str(), r.original_hash.as_str()), ("h3", "h0"));
    assert_eq!(r.encrypted_content.bytes, b"a".to_vec());
}

#[test]
fn update_without_original_pointer_fails() {
    assert_eq!(update_pointer_links(&vec![], &s("h1")).err(), Some(ContentError::NotFound));
}

#[test]
fn get_by_id_reports_head_and_original() {
    let r = get_encrypted_content(Some((content("a"), s("h2"))), s("h0")).unwrap();
    assert_eq!((r.hash.as_str(), r.original_hash.as_str()), ("h2", "h0"));
    assert_eq!(r.encrypted_content.header.id, "a");
    assert_eq!(get_encrypted_content(None, s("h0")).err(), Some(ContentError::NotFound));
}
