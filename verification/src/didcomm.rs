//! The rules of the encrypted message exchange that do not need the wire.
//!
//! Sealing and opening a message, looking up the other party and the party's
//! own keyring are the caller's work. What is decided here: which key of the
//! other party is used, which key pair encrypts, what the attachment with the
//! metadata holds, and what an opened message yields.

use vstd::prelude::*;
use crate::errors::UNiDError;
use crate::sidetree::{DIDDocument, DidPublicKey};

verus! {

/// `serde_json::Value`, a JSON document that is carried through. Nothing is
/// claimed of what it holds.
#[verifier::external_type_specification]
#[verifier::external_body]
pub struct ExJsonValue(serde_json::Value);

/// The format that marks the attachment with the metadata.
pub const METADATA_FORMAT: &'static str = "metadata";

/// The link that the attachment with the metadata carries.
pub const METADATA_LINK: &'static str = "https://did.getunid.io";

/// The number of bytes of an X25519 key.
pub const KEY_LENGTH: usize = 32;

/// The service that exchanges encrypted messages.
#[derive(Debug, Clone, Copy, PartialEq, Eq, Structural)]
pub struct DIDCommEncryptedService {}

/// An opened message: its body, and its metadata if it carried any.
#[derive(Debug, PartialEq, Eq)]
pub struct VerifiedContainer {
    pub message: serde_json::Value,
    pub metadata: Option<serde_json::Value>,
}

/// What the rules read of an attachment of an opened message.
#[derive(Debug, PartialEq, Eq)]
pub struct AttachmentInfo {
    pub format: Option<String>,
    pub json: Option<String>,
}

/// The attachment that carries the metadata of a message to be sealed.
#[derive(Debug, PartialEq, Eq)]
pub struct MetadataAttachment {
    pub id: String,
    pub format: String,
    pub link: String,
    pub json: String,
}

/// The key pair that encrypts the messages between two parties.
#[derive(Debug, PartialEq, Eq)]
pub struct KeyMaterial {
    pub secret: [u8; 32],
    pub public: [u8; 32],
}

/// The secret scalar that X25519 makes of 32 bytes: the three lowest bits of
/// the first byte and the highest bit of the last byte are cleared, the
/// second highest bit of the last byte is set.
pub open spec fn clamped(seed: Seq<u8>) -> Seq<u8> {
    seed.update(0, seed[0] & 248).update(31, (seed[31] & 127) | 64)
}

/// The X25519 public key that belongs to the secret made of `seed`.
pub uninterp spec fn x25519_public_key(seed: Seq<u8>) -> Seq<u8>;

/// The document that the JSON reader in use makes of `text`, or nothing where
/// the reader does not accept `text` as a JSON document.
pub uninterp spec fn json_document(text: Seq<char>) -> Option<serde_json::Value>;

/// Whether `text` is a JSON document, as the JSON reader in use judges it.
pub open spec fn is_json(text: Seq<char>) -> bool {
    json_document(text).is_some()
}

/// `x25519_dalek::StaticSecret::from` followed by `to_bytes`: the bytes of
/// the secret that the crate makes of `seed`, which are the clamped seed.
#[verifier::external_body]
fn static_secret_bytes(seed: &[u8; 32]) -> (secret: [u8; 32])
    ensures
        secret@ == clamped(seed@),
{
    x25519_dalek::StaticSecret::from(*seed).to_bytes()
}

/// `x25519_dalek::PublicKey::from` on the secret made of `seed`: the public
/// key of that secret. The contract gives the result its name and says
/// nothing of its value.
#[verifier::external_body]
fn public_key_bytes(seed: &[u8; 32]) -> (public: [u8; 32])
    ensures
        public@ == x25519_public_key(seed@),
{
    x25519_dalek::PublicKey::from(&x25519_dalek::StaticSecret::from(*seed)).to_bytes()
}

/// `serde_json::from_str` for a `serde_json::Value`: the document that the
/// reader makes of the text, or an error where it makes none. The contract
/// gives the outcome its name and says nothing of which texts are accepted or
/// of what a document holds.
#[verifier::external_body]
fn parse_json(text: &str) -> (r: Result<serde_json::Value, serde_json::Error>)
    ensures
        r.is_ok() == json_document(text@).is_some(),
        r.is_ok() ==> r.unwrap() == json_document(text@).unwrap(),
{
    serde_json::from_str::<serde_json::Value>(text)
}

/// The position of the first attachment whose format is `metadata`.
pub open spec fn metadata_position(attachments: Seq<AttachmentInfo>) -> Option<int> {
    if exists|i: int| 0 <= i < attachments.len() && is_metadata(#[trigger] attachments[i]) {
        Some(
            choose|i: int|
                0 <= i < attachments.len() && is_metadata(#[trigger] attachments[i]) && forall|k: int|
                    0 <= k < i ==> !is_metadata(#[trigger] attachments[k]),
        )
    } else {
        None
    }
}

/// Whether an attachment is marked as the one with the metadata.
pub open spec fn is_metadata(attachment: AttachmentInfo) -> bool {
    attachment.format.is_some() && attachment.format.unwrap()@ == METADATA_FORMAT@
}

fn same_text(a: &str, b: &str) -> (r: bool)
    ensures
        r == (a@ == b@),
{
    let n: usize = a.unicode_len();
    if b.unicode_len() != n {
        return false;
    }
    let mut i: usize = 0;
    while i < n
        invariant
            i <= n,
            n == a@.len(),
            n == b@.len(),
            forall|k: int| 0 <= k < i ==> a@[k] == b@[k],
        decreases n - i,
    {
        if a.get_char(i) != b.get_char(i) {
            return false;
        }
        i += 1;
    }
    assert(a@ =~= b@);
    true
}

impl DIDCommEncryptedService {
    /// The key of the other party that a message is encrypted for or checked
    /// against: the document has to hold exactly one public key.
    pub fn recipient_key(document: &DIDDocument) -> (r: Result<DidPublicKey, UNiDError>)
        ensures
            r.is_ok() == (document.public_key.is_some() && document.public_key.unwrap()@.len() == 1),
            r.is_ok() ==> r.unwrap() == document.public_key.unwrap()@[0],
    {
        match &document.public_key {
            Some(keys) => {
                if keys.len() != 1 {
                    return Err(UNiDError {  });
                }
                Ok(keys[0].clone())
            },
            None => Err(UNiDError {  }),
        }
    }

    /// The key pair made of the secret that both parties share: the first 32
    /// bytes of `shared_key` are the seed. A shorter secret is refused.
    pub fn key_material(shared_key: &Vec<u8>) -> (r: Result<KeyMaterial, UNiDError>)
        ensures
            r.is_ok() == (shared_key@.len() >= KEY_LENGTH),
            r.is_ok() ==> r.unwrap().secret@ == clamped(shared_key@.take(KEY_LENGTH as int))
                && r.unwrap().public@ == x25519_public_key(shared_key@.take(KEY_LENGTH as int)),
    {
        if shared_key.len() < KEY_LENGTH {
            return Err(UNiDError {  });
        }
        let mut seed: [u8; 32] = [0u8; 32];
        let mut i: usize = 0;
        while i < KEY_LENGTH
            invariant
                i <= KEY_LENGTH,
                shared_key@.len() >= KEY_LENGTH,
                forall|k: int| 0 <= k < i ==> seed@[k] == shared_key@[k],
            decreases KEY_LENGTH - i,
        {
            seed.set(i, shared_key[i]);
            i += 1;
        }
        assert(seed@ =~= shared_key@.take(KEY_LENGTH as int));
        Ok(KeyMaterial { secret: static_secret_bytes(&seed), public: public_key_bytes(&seed) })
    }

    /// The attachment that carries the metadata of a message.
    ///
    /// A message without metadata has none. With metadata, `id` is the
    /// outcome of drawing a fresh identifier: the attachment carries it, and a
    /// failed draw fails the message.
    pub fn metadata_attachment(metadata: Option<String>, id: Option<String>) -> (r: Result<
        Option<MetadataAttachment>,
        UNiDError,
    >)
        ensures
            match metadata {
                None => r == Ok::<Option<MetadataAttachment>, UNiDError>(None),
                Some(json) => match id {
                    None => r.is_err(),
                    Some(id) => r.is_ok() && r.unwrap().is_some() && r.unwrap().unwrap().id == id
                        && r.unwrap().unwrap().json == json && r.unwrap().unwrap().format@
                        == METADATA_FORMAT@ && r.unwrap().unwrap().link@ == METADATA_LINK@,
                },
            },
    {
        match metadata {
            None => Ok(None),
            Some(json) => match id {
                None => Err(UNiDError {  }),
                Some(id) => Ok(
                    Some(
                        MetadataAttachment {
                            id,
                            format: METADATA_FORMAT.to_owned(),
                            link: METADATA_LINK.to_owned(),
                            json,
                        },
                    ),
                ),
            },
        }
    }

    /// The position of the first attachment whose format is `metadata`.
    pub fn find_metadata(attachments: &Vec<AttachmentInfo>) -> (r: Option<usize>)
        ensures
            match r {
                Some(i) => i < attachments@.len() && is_metadata(attachments@[i as int]) && forall|k: int|
                    0 <= k < i ==> !is_metadata(#[trigger] attachments@[k]),
                None => forall|k: int| 0 <= k < attachments@.len() ==> !is_metadata(#[trigger] attachments@[k]),
            },
            r.is_some() == metadata_position(attachments@).is_some(),
            r.is_some() ==> r.unwrap() == metadata_position(attachments@).unwrap(),
    {
        let mut i: usize = 0;
        while i < attachments.len()
            invariant
                i <= attachments.len(),
                forall|k: int| 0 <= k < i ==> !is_metadata(#[trigger] attachments@[k]),
            decreases attachments.len() - i,
        {
            let marked = match &attachments[i].format {
                Some(format) => same_text(format.as_str(), METADATA_FORMAT),
                None => false,
            };
            if marked {
                proof {
                    let found = metadata_position(attachments@).unwrap();
                    assert(is_metadata(attachments@[i as int]));
                    if found < i {
                        assert(!is_metadata(attachments@[found]));
                    }
                    if i < found {
                        assert(!is_metadata(attachments@[i as int]));
                    }
                }
                return Some(i);
            }
            i += 1;
        }
        None
    }

    /// Whether an opened message with the body `body` and the attachments
    /// `attachments` yields a container: the body has to be a JSON document,
    /// and if an attachment is marked as metadata, the first such attachment
    /// has to carry a JSON document.
    pub open spec fn yields_container(body: Seq<char>, attachments: Seq<AttachmentInfo>) -> bool {
        &&& is_json(body)
        &&& match metadata_position(attachments) {
            None => true,
            Some(i) => attachments[i].json.is_some() && is_json(attachments[i].json.unwrap()@),
        }
    }

    /// The container that an opened message yields: the document of its
    /// body, and the document of the first attachment that is marked as
    /// metadata.
    pub open spec fn container_of(body: Seq<char>, attachments: Seq<AttachmentInfo>) -> VerifiedContainer {
        VerifiedContainer {
            message: json_document(body).unwrap(),
            metadata: match metadata_position(attachments) {
                None => None,
                Some(i) => json_document(attachments[i].json.unwrap()@),
            },
        }
    }

    /// What an opened message yields: its body, and the metadata of the first
    /// attachment that is marked as such.
    pub fn verified_container(body: &str, attachments: &Vec<AttachmentInfo>) -> (r: Result<
        VerifiedContainer,
        UNiDError,
    >)
        ensures
            r.is_ok() == Self::yields_container(body@, attachments@),
            r.is_ok() ==> r.unwrap() == Self::container_of(body@, attachments@),
    {
        let message = match parse_json(body) {
            Ok(message) => message,
            Err(_) => {
                return Err(UNiDError {  });
            },
        };
        match Self::find_metadata(attachments) {
            None => Ok(VerifiedContainer { message, metadata: None }),
            Some(i) => match &attachments[i].json {
                None => Err(UNiDError {  }),
                Some(json) => match parse_json(json.as_str()) {
                    Ok(metadata) => Ok(VerifiedContainer { message, metadata: Some(metadata) }),
                    Err(_) => Err(UNiDError {  }),
                },
            },
        }
    }
}

} // verus!
