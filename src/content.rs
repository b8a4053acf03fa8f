//! Content revisions, the requests and responses around them, and change
//! notifications.

use vstd::prelude::*;
use crate::acl::Acl;

verus! {

/// Metadata fixed when an item is created and carried by every revision.
#[derive(Clone, Debug)]
pub struct EncryptedContentHeader {
    /// The caller's logical id, stable across revisions.
    pub id: String,
    /// The group ("hive"); empty for group-less content.
    pub hive_id: String,
    pub content_type: String,
    pub revision_author_signing_public_key: String,
    pub acl: Acl,
    pub public_key_acl: Acl,
}

/// One revision: a header and opaque encrypted bytes.
#[derive(Clone, Debug)]
pub struct EncryptedContent {
    pub header: EncryptedContentHeader,
    pub bytes: Vec<u8>,
}

/// What a caller hands in to create an item.
#[derive(Clone, Debug)]
pub struct CreateEncryptedContentInput {
    pub id: String,
    pub hive_id: String,
    pub content_type: String,
    pub revision_author_signing_public_key: String,
    pub bytes: Vec<u8>,
    pub acl: Acl,
    pub public_key_acl: Acl,
    pub dynamic_links: Option<Vec<String>>,
}

/// A revision together with its own address and its item's original address.
#[derive(Clone, Debug)]
pub struct EncryptedContentResponse {
    pub encrypted_content: EncryptedContent,
    pub hash: String,
    pub original_hash: String,
}

/// The operation that a change notification reports.
#[derive(Clone, Copy, Debug, PartialEq, Eq, Structural)]
pub enum EncryptedContentSignalType {
    Create,
    Update,
    Delete,
}

/// A best-effort change notification: the operation and the resulting item.
#[derive(Clone, Debug)]
pub struct EncryptedContentSignal {
    pub action_type: EncryptedContentSignalType,
    pub data: EncryptedContentResponse,
}

impl CreateEncryptedContentInput {
    /// Splits a create request into the revision to store and its dynamic tags.
    pub fn into_content(self) -> (r: (EncryptedContent, Option<Vec<String>>))
        ensures
            r.0.header.id == self.id,
            r.0.header.hive_id == self.hive_id,
            r.0.header.content_type == self.content_type,
            r.0.header.revision_author_signing_public_key
                == self.revision_author_signing_public_key,
            r.0.header.acl == self.acl,
            r.0.header.public_key_acl == self.public_key_acl,
            r.0.bytes == self.bytes,
            r.1 == self.dynamic_links,
    {
        let content = EncryptedContent {
            header: EncryptedContentHeader {
                id: self.id,
                hive_id: self.hive_id,
                content_type: self.content_type,
                revision_author_signing_public_key: self.revision_author_signing_public_key,
                acl: self.acl,
                public_key_acl: self.public_key_acl,
            },
            bytes: self.bytes,
        };
        (content, self.dynamic_links)
    }
}

impl EncryptedContentResponse {
    /// The response to a create: the new revision is its own original.
    pub fn created(content: EncryptedContent, address: String) -> (r: EncryptedContentResponse)
        ensures
            r.encrypted_content == content,
            r.hash@ == address@,
            r.original_hash@ == address@,
    {
        let original_hash = address.clone();
        EncryptedContentResponse { encrypted_content: content, hash: address, original_hash }
    }

    /// The response for a resolved head revision of an item.
    pub fn resolved(content: EncryptedContent, head: String, original: String) -> (r:
        EncryptedContentResponse)
        ensures
            r.encrypted_content == content,
            r.hash == head,
            r.original_hash == original,
    {
        EncryptedContentResponse { encrypted_content: content, hash: head, original_hash: original }
    }
}

impl EncryptedContentSignal {
    /// A notification of `action_type` carrying `data`.
    pub fn new(action_type: EncryptedContentSignalType, data: EncryptedContentResponse) -> (r:
        EncryptedContentSignal)
        ensures
            r.action_type == action_type,
            r.data == data,
    {
        EncryptedContentSignal { action_type, data }
    }
}

} // verus!
