//! Access-control specifications and their fan-out into role memberships.

use vstd::prelude::*;
use crate::error::ContentError;
use crate::keys::{str_equals, strings_view, Namespace, SlotView};

verus! {

/// Who owns an item and who holds each role on it. Entities are opaque ids.
#[derive(Clone, Debug)]
pub struct Acl {
    pub owner: String,
    pub admin: Vec<String>,
    pub writer: Vec<String>,
    pub reader: Vec<String>,
}

pub struct AclView {
    pub owner: Seq<char>,
    pub admin: Seq<Seq<char>>,
    pub writer: Seq<Seq<char>>,
    pub reader: Seq<Seq<char>>,
}

impl View for Acl {
    type V = AclView;

    open spec fn view(&self) -> AclView {
        AclView {
            owner: self.owner@,
            admin: strings_view(self.admin@),
            writer: strings_view(self.writer@),
            reader: strings_view(self.reader@),
        }
    }
}

/// The four roles, from the most privileged down.
#[derive(Clone, Copy, Debug, PartialEq, Eq, Structural)]
pub enum AclRole {
    Owner,
    Admin,
    Writer,
    Reader,
}

/// The entities that hold a role: the owner alone; the admins; the admins
/// and writers; the admins, writers and readers.
pub open spec fn role_members(acl: AclView, role: AclRole) -> Seq<Seq<char>> {
    match role {
        AclRole::Owner => seq![acl.owner],
        AclRole::Admin => acl.admin,
        AclRole::Writer => acl.admin + acl.writer,
        AclRole::Reader => acl.admin + acl.writer + acl.reader,
    }
}

/// The namespace that indexes a role.
pub open spec fn role_namespace_spec(role: AclRole) -> Namespace {
    match role {
        AclRole::Owner => Namespace::Owner,
        AclRole::Admin => Namespace::Admin,
        AclRole::Writer => Namespace::Writer,
        AclRole::Reader => Namespace::Reader,
    }
}

/// The role that a literal role name stands for, if any (case-sensitive).
pub open spec fn role_named(name: Seq<char>) -> Option<AclRole> {
    if name == "Owner"@ {
        Some(AclRole::Owner)
    } else if name == "Admin"@ {
        Some(AclRole::Admin)
    } else if name == "Writer"@ {
        Some(AclRole::Writer)
    } else if name == "Reader"@ {
        Some(AclRole::Reader)
    } else {
        None
    }
}

/// The slot of one (role, entity) pair for an item of a hive and type.
pub open spec fn acl_slot_spec(
    role: AclRole,
    hive: Seq<char>,
    content_type: Seq<char>,
    entity: Seq<char>,
) -> SlotView {
    (role_namespace_spec(role), seq![hive, content_type, entity])
}

/// The slots of every member of one role, in member order.
pub open spec fn role_slots(
    acl: AclView,
    role: AclRole,
    hive: Seq<char>,
    content_type: Seq<char>,
) -> Seq<SlotView> {
    role_members(acl, role).map_values(|e: Seq<char>| acl_slot_spec(role, hive, content_type, e))
}

/// Every slot that an item's access-control list fans out to: owner, admin,
/// writer and reader slots, in that order.
pub open spec fn acl_slots(acl: AclView, hive: Seq<char>, content_type: Seq<char>) -> Seq<SlotView> {
    role_slots(acl, AclRole::Owner, hive, content_type) + role_slots(
        acl,
        AclRole::Admin,
        hive,
        content_type,
    ) + role_slots(acl, AclRole::Writer, hive, content_type) + role_slots(
        acl,
        AclRole::Reader,
        hive,
        content_type,
    )
}

impl AclRole {
    /// The namespace that indexes this role.
    pub fn namespace(&self) -> (r: Namespace)
        ensures
            r == role_namespace_spec(*self),
    {
        match self {
            AclRole::Owner => Namespace::Owner,
            AclRole::Admin => Namespace::Admin,
            AclRole::Writer => Namespace::Writer,
            AclRole::Reader => Namespace::Reader,
        }
    }
}

/// Reads a literal role name; anything but the four names is refused.
pub fn parse_acl_role(name: &str) -> (r: Result<AclRole, ContentError>)
    ensures
        r == (match role_named(name@) {
            Some(role) => Ok(role),
            None => Err(ContentError::InvalidAclRole),
        }),
{
    if str_equals(name, "Owner") {
        Ok(AclRole::Owner)
    } else if str_equals(name, "Admin") {
        Ok(AclRole::Admin)
    } else if str_equals(name, "Writer") {
        Ok(AclRole::Writer)
    } else if str_equals(name, "Reader") {
        Ok(AclRole::Reader)
    } else {
        Err(ContentError::InvalidAclRole)
    }
}

/// Appends copies of `src` to `out`.
fn append_all(out: &mut Vec<String>, src: &Vec<String>)
    ensures
        strings_view(final(out)@) == strings_view(old(out)@) + strings_view(src@),
{
    let ghost start = strings_view(out@);
    let mut i: usize = 0;
    while i < src.len()
        invariant
            0 <= i <= src@.len(),
            strings_view(out@) == start + strings_view(src@.take(i as int)),
        decreases src@.len() - i,
    {
        let ghost prev = out@;
        let c = src[i].clone();
        out.push(c);
        assert(strings_view(out@) =~= strings_view(prev).push(src@[i as int]@));
        assert(strings_view(src@.take(i + 1)) =~= strings_view(src@.take(i as int)).push(
            src@[i as int]@,
        ));
        assert(strings_view(out@) =~= start + strings_view(src@.take(i + 1)));
        i = i + 1;
    }
    assert(src@.take(src@.len() as int) =~= src@);
}

/// The entities that hold `role` on an item with this access-control list.
pub fn members(acl: &Acl, role: AclRole) -> (r: Vec<String>)
    ensures
        strings_view(r@) == role_members(acl@, role),
{
    let mut r: Vec<String> = Vec::new();
    match role {
        AclRole::Owner => {
            r.push(acl.owner.clone());
            assert(strings_view(r@) =~= seq![acl.owner@]);
        },
        AclRole::Admin => {
            append_all(&mut r, &acl.admin);
            assert(strings_view(r@) =~= acl@.admin);
        },
        AclRole::Writer => {
            append_all(&mut r, &acl.admin);
            append_all(&mut r, &acl.writer);
            assert(strings_view(r@) =~= acl@.admin + acl@.writer);
        },
        AclRole::Reader => {
            append_all(&mut r, &acl.admin);
            append_all(&mut r, &acl.writer);
            append_all(&mut r, &acl.reader);
            assert(strings_view(r@) =~= acl@.admin + acl@.writer + acl@.reader);
        },
    }
    r
}

} // verus!
