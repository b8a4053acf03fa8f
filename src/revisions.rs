//! The pointer links that tie each revision of an item to its original.

use vstd::prelude::*;
use crate::content::EncryptedContent;
use crate::error::ContentError;
use crate::keys::Namespace;

verus! {

/// Update an item: the revision being superseded and the new revision.
#[derive(Clone, Debug)]
pub struct UpdateEncryptedContentInput {
    pub previous_encrypted_content_hash: String,
    pub updated_encrypted_content: EncryptedContent,
}

/// A link between two revision addresses in a namespace.
#[derive(Clone, Debug)]
pub struct PointerLink {
    pub base: String,
    pub target: String,
    pub namespace: Namespace,
}

/// A pointer link as (base, target, namespace).
pub type PointerView = (Seq<char>, Seq<char>, Namespace);

impl View for PointerLink {
    type V = PointerView;

    open spec fn view(&self) -> PointerView {
        (self.base@, self.target@, self.namespace)
    }
}

/// The pointer a new item gets: its first revision points at itself.
pub open spec fn self_pointer(created: Seq<char>) -> PointerView {
    (created, created, Namespace::OriginalPointer)
}

/// The links an update writes: the original records the new revision among
/// its updates, and the new revision points back at the original.
pub open spec fn update_pointers(original: Seq<char>, updated: Seq<char>) -> Seq<PointerView> {
    seq![(original, updated, Namespace::Updates), (updated, original, Namespace::OriginalPointer)]
}

/// The original that the pointer of the last of `revisions` names, when the
/// first was created and each later one updated the one before it.
pub open spec fn pointer_after(revisions: Seq<Seq<char>>) -> Seq<char>
    decreases revisions.len(),
{
    if revisions.len() <= 1 {
        self_pointer(revisions[0]).1
    } else {
        update_pointers(pointer_after(revisions.drop_last()), revisions.last())[1].1
    }
}

impl PointerLink {
    /// The self-pointer of a newly created revision.
    pub fn original_pointer(created: &String) -> (r: PointerLink)
        ensures
            r@ == self_pointer(created@),
    {
        PointerLink {
            base: created.clone(),
            target: created.clone(),
            namespace: Namespace::OriginalPointer,
        }
    }
}

/// The links that an update must write, given the targets of the superseded
/// revision's original pointer: the first target is the item's original.
/// Without one the original is unknown and the update fails with `NotFound`.
pub fn update_pointer_links(original_targets: &Vec<String>, updated: &String) -> (r: Result<
    Vec<PointerLink>,
    ContentError,
>)
    ensures
        original_targets@.len() == 0 ==> r == Err::<Vec<PointerLink>, ContentError>(
            ContentError::NotFound,
        ),
        original_targets@.len() > 0 ==> (r matches Ok(links) && links@.len() == 2 && links@[0]@
            == update_pointers(original_targets@[0]@, updated@)[0] && links@[1]@
            == update_pointers(original_targets@[0]@, updated@)[1]),
{
    if original_targets.len() == 0 {
        return Err(ContentError::NotFound);
    }
    let original = &original_targets[0];
    let mut links: Vec<PointerLink> = Vec::new();
    links.push(
        PointerLink {
            base: original.clone(),
            target: updated.clone(),
            namespace: Namespace::Updates,
        },
    );
    links.push(
        PointerLink {
            base: updated.clone(),
            target: original.clone(),
            namespace: Namespace::OriginalPointer,
        },
    );
    Ok(links)
}

/// However many updates follow a creation, the original pointer of the
/// newest revision still names the first revision: an item's original
/// address never changes.
pub proof fn lemma_original_address_stable(revisions: Seq<Seq<char>>)
    requires
        revisions.len() > 0,
    ensures
        pointer_after(revisions) == revisions[0],
    decreases revisions.len(),
{
    if revisions.len() > 1 {
        lemma_original_address_stable(revisions.drop_last());
    }
}

} // verus!
