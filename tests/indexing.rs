use humm_content::acl::{members, parse_acl_role, Acl, AclRole};
use humm_content::content::{
    CreateEncryptedContentInput, EncryptedContent, EncryptedContentHeader,
    EncryptedContentResponse, EncryptedContentSignal, EncryptedContentSignalType,
};
use humm_content::error::ContentError;
use humm_content::indexing::{
    create_acl_links, create_encrypted_content, create_index_links, index_writes_outcome,
};
use humm_content::keys::{key_of_three, str_equals, IndexKey, IndexSlot, Namespace};
use humm_content::query::{list_by_acl_link, list_by_dynamic_link, ListByAclInput, ListByDynamicLinkInput};

fn s(x: &str) -> String {
    x.to_string()
}

fn acl(owner: &str, admin: &[&str], writer: &[&str], reader: &[&str]) -> Acl {
    Acl {
        owner: s(owner),
        admin: admin.iter().map(|x| s(x)).collect(),
        writer: writer.iter().map(|x| s(x)).collect(),
        reader: reader.iter().map(|x| s(x)).collect(),
    }
}

fn content(id: &str, hive: &str, ty: &str, a: Acl) -> EncryptedContent {
    EncryptedContent {
        header: EncryptedContentHeader {
            id: s(id),
            hive_id: s(hive),
            content_type: s(ty),
            revision_author_signing_public_key: s("key"),
            acl: a.clone(),
            public_key_acl: a,
        },
        bytes: vec![1, 2, 3],
    }
}

fn contains(plan: &[IndexSlot], slot: &IndexSlot) -> bool {
    plan.iter().any(|p| p.same_slot(slot))
}

fn acl_lookup(role: &str, entity: &str) -> Result<IndexSlot, ContentError> {
    list_by_acl_link(&ListByAclInput {
        hive_id: s("hive"),
        content_type: s("note"),
        acl_role: s(role),
        entity_id: s(entity),
    })
}

fn components(k: &IndexKey) -> Vec<String> {
    k.components.clone()
}

#[test]
fn acl_role_lookups_follow_role_inclusion() {
    let c = content("item", "hive", "note", acl("O", &["A"], &["B"], &["C"]));
    let plan = create_index_links(&c, "author", &None);
    for e in ["A", "B"] {
        assert!(contains(&plan, &acl_lookup("Writer", e).unwrap()));
    }
    assert!(!contains(&plan, &acl_lookup("Writer", "C").unwrap()));
    for e in ["A", "B", "C"] {
        assert!(contains(&plan, &acl_lookup("Reader", e).unwrap()));
    }
    assert!(contains(&plan, &acl_lookup("Owner", "O").unwrap()));
    for e in ["A", "B", "C"] {
        assert!(!contains(&plan, &acl_lookup("Owner", e).unwrap()));
    }
    assert!(contains(&plan, &acl_lookup("Admin", "A").unwrap()));
    assert!(!contains(&plan, &acl_lookup("Admin", "B").unwrap()));
}

#[test]
fn unknown_acl_role_is_refused() {
    assert_eq!(acl_lookup("Manager", "A").err(), Some(ContentError::InvalidAclRole));
    assert_eq!(acl_lookup("writer", "A").err(), Some(ContentError::InvalidAclRole));
    assert_eq!(acl_lookup("", "A").err(), Some(ContentError::InvalidAclRole));
}

#[test]
fn role_names_parse_exactly() {
    assert_eq!(parse_acl_role("Owner"), Ok(AclRole::Owner));
    assert_eq!(parse_acl_role("Admin"), Ok(AclRole::Admin));
    assert_eq!(parse_acl_role("Writer"), Ok(AclRole::Writer));
    assert_eq!(parse_acl_role("Reader"), Ok(AclRole::Reader));
    assert_eq!(parse_acl_role("Readers"), Err(ContentError::InvalidAclRole));
}

#[test]
fn acl_lookup_key_and_namespace() {
    let slot = acl_lookup("Reader", "C").unwrap();
    assert_eq!(slot.namespace, Namespace::Reader);
    assert_eq!(components(&slot.key), vec![s("hive"), s("note"), s("C")]);
}

#[test]
fn role_members_expand_by_inclusion() {
    let a = acl("O", &["A1", "A2"], &["B"], &["C"]);
    assert_eq!(members(&a, AclRole::Owner), vec![s("O")]);
    assert_eq!(members(&a, AclRole::Admin), vec![s("A1"), s("A2")]);
    assert_eq!(members(&a, AclRole::Writer), vec![s("A1"), s("A2"), s("B")]);
    assert_eq!(members(&a, AclRole::Reader), vec![s("A1"), s("A2"), s("B"), s("C")]);
}

#[test]
fn acl_links_one_per_role_and_entity() {
    let c = content("item", "hive", "note", acl("O", &["A"], &["B"], &["C"]));
    let links = create_acl_links(&c);
    let got: Vec<(Namespace, String)> =
        links.iter().map(|l| (l.namespace, l.key.components[2].clone())).collect();
    assert_eq!(
        got,
        vec![
            (Namespace::Owner, s("O")),
            (Namespace::Admin, s("A")),
            (Namespace::Writer, s("A")),
            (Namespace::Writer, s("B")),
            (Namespace::Reader, s("A")),
            (Namespace::Reader, s("B")),
            (Namespace::Reader, s("C")),
        ]
    );
}

#[test]
fn create_plan_in_order() {
    let c = content("item", "hive", "note", acl("O", &[], &[], &[]));
    let plan = create_index_links(&c, "me", &Some(vec![s("red"), s("blue")]));
    let got: Vec<(Namespace, Vec<String>)> =
        plan.iter().map(|l| (l.namespace, components(&l.key))).collect();
    assert_eq!(
        got,
        vec![
            (Namespace::Author, vec![s("me"), s("note")]),
            (Namespace::Owner, vec![s("hive"), s("note"), s("O")]),
            (Namespace::HiveAndType, vec![s("hive"), s("note")]),
            (Namespace::ContentId, vec![s("hive"), s("item")]),
            (Namespace::DynamicTag, vec![s("hive"), s("note"), s("red")]),
            (Namespace::DynamicTag, vec![s("hive"), s("note"), s("blue")]),
            (Namespace::Time, vec![s("me"), s("note")]),
        ]
    );
}

#[test]
fn empty_hive_gets_no_hive_link() {
    let c = content("item", "", "hive_discovery", acl("O", &[], &[], &[]));
    let plan = create_index_links(&c, "me", &None);
    assert!(plan.iter().all(|l| l.namespace != Namespace::HiveAndType));
    assert_eq!(plan.len(), 4);
}

#[test]
fn dynamic_tags_do_not_leak() {
    let c1 = content("one", "hive", "note", acl("O", &[], &[], &[]));
    let c2 = content("two", "hive", "note", acl("O", &[], &[], &[]));
    let p1 = create_index_links(&c1, "me", &Some(vec![s("T1")]));
    let p2 = create_index_links(&c2, "me", &Some(vec![s("T2")]));
    let look = |t: &str| {
        list_by_dynamic_link(&ListByDynamicLinkInput {
            hive_id: s("hive"),
            content_type: s("note"),
            dynamic_link: s(t),
        })
    };
    assert!(contains(&p1, &look("T1")));
    assert!(!contains(&p2, &look("T1")));
    assert!(contains(&p2, &look("T2")));
    assert!(!contains(&p1, &look("T2")));
}

#[test]
fn keys_compare_case_sensitively() {
    let a = key_of_three("h", "t", "x");
    let b = key_of_three("h", "t", "x");
    let c = key_of_three("h", "t", "X");
    let d = key_of_three("h", "tx", "");
    assert!(a.same_key(&b));
    assert!(!a.same_key(&c));
    assert!(!a.same_key(&d));
    assert!(str_equals("héllo", "héllo"));
    assert!(!str_equals("hello", "hell"));
}

#[test]
fn create_request_becomes_content_and_response() {
    let input = CreateEncryptedContentInput {
        id: s("item"),
        hive_id: s("hive"),
        content_type: s("note"),
        revision_author_signing_public_key: s("key"),
        bytes: vec![9, 8, 7],
        acl: acl("O", &[], &[], &[]),
        public_key_acl: acl("P", &[], &[], &[]),
        dynamic_links: Some(vec![s("t")]),
    };
    let (c, tags) = input.into_content();
    assert_eq!(c.header.id, "item");
    assert_eq!(c.header.public_key_acl.owner, "P");
    assert_eq!(tags, Some(vec![s("t")]));
    let r = EncryptedContentResponse::created(c, s("uhCkk1"));
    assert_eq!(r.hash, "uhCkk1");
    assert_eq!(r.original_hash, "uhCkk1");
    assert_eq!(r.encrypted_content.bytes, vec![9, 8, 7]);
    let sig = EncryptedContentSignal::new(EncryptedContentSignalType::Create, r);
    assert_eq!(sig.action_type, EncryptedContentSignalType::Create);
    assert_eq!(sig.data.hash, "uhCkk1");
}

#[test]
fn failed_index_write_is_reported() {
    assert_eq!(index_writes_outcome(&vec![true, true, true]), Ok(()));
    assert_eq!(index_writes_outcome(&vec![]), Ok(()));
    assert_eq!(
        index_writes_outcome(&vec![true, false, true]),
        Err(ContentError::PartialIndexFailure)
    );
}

#[test]
fn create_plan_points_the_revision_at_itself() {
    let c = content("item", "hive", "note", acl("O", &["A"], &[], &[]));
    let expected = create_index_links(&c, "me", &Some(vec![s("t")]));
    let plan = create_encrypted_content(c, &Some(vec![s("t")]), "me", s("uhCkkX"));
    assert_eq!(plan.response.hash, "uhCkkX");
    assert_eq!(plan.response.original_hash, "uhCkkX");
    assert_eq!(plan.response.encrypted_content.header.id, "item");
    assert_eq!(plan.original_pointer.base, "uhCkkX");
    assert_eq!(plan.original_pointer.target, "uhCkkX");
    assert_eq!(plan.original_pointer.namespace, Namespace::OriginalPointer);
    assert_eq!(plan.index_links.len(), expected.len());
    assert!(plan.index_links.iter().zip(expected.iter()).all(|(a, b)| a.same_slot(b)));
}
