//! The documents exchanged with the identifier registry, and the assembly of
//! the request that creates an identifier.
//!
//! Hashing and encoding are the caller's work: the functions here put the
//! pieces together and say exactly what each piece holds.

use vstd::prelude::*;

verus! {

/// A secp256k1 key in JSON Web Key form.
#[derive(Debug, PartialEq, Eq)]
pub struct KeyPairSecp256K1 {
    pub kty: String,
    pub crv: String,
    pub x: String,
    pub y: String,
    pub d: Option<String>,
    pub kid: Option<String>,
}

fn clone_text(text: &Option<String>) -> (r: Option<String>)
    ensures
        r == *text,
{
    match text {
        Some(inner) => Some(inner.clone()),
        None => None,
    }
}

impl Clone for KeyPairSecp256K1 {
    fn clone(&self) -> (r: Self)
        ensures
            r == *self,
    {
        KeyPairSecp256K1 {
            kty: self.kty.clone(),
            crv: self.crv.clone(),
            x: self.x.clone(),
            y: self.y.clone(),
            d: clone_text(&self.d),
            kid: clone_text(&self.kid),
        }
    }
}

/// A service that an identifier's document points to.
#[derive(Debug, PartialEq, Eq)]
pub struct ServiceEndpoint {
    pub id: String,
    pub type_: String,
    pub service_endpoint: String,
    pub description: Option<String>,
}

/// A public key as it stands in an identifier's document.
#[derive(Debug, PartialEq, Eq)]
pub struct DidPublicKey {
    pub id: String,
    pub controller: String,
    pub type_: String,
    pub public_key_jwk: KeyPairSecp256K1,
}

impl Clone for DidPublicKey {
    fn clone(&self) -> (r: Self)
        ensures
            r == *self,
    {
        DidPublicKey {
            id: self.id.clone(),
            controller: self.controller.clone(),
            type_: self.type_.clone(),
            public_key_jwk: self.public_key_jwk.clone(),
        }
    }
}

/// The document that an identifier resolves to.
#[derive(Debug, PartialEq, Eq)]
pub struct DIDDocument {
    pub id: String,
    pub public_key: Option<Vec<DidPublicKey>>,
    pub service: Option<Vec<ServiceEndpoint>>,
    pub authentication: Option<Vec<DidPublicKey>>,
}

/// A public key as it is handed in when an identifier is created.
#[derive(Debug, PartialEq, Eq)]
pub struct PublicKeyPayload {
    pub id: String,
    pub type_: String,
    pub jwk: KeyPairSecp256K1,
    pub purpose: Vec<String>,
}

fn clone_texts(texts: &Vec<String>) -> (r: Vec<String>)
    ensures
        r@ == texts@,
{
    let mut r: Vec<String> = Vec::new();
    let mut i: usize = 0;
    while i < texts.len()
        invariant
            i <= texts.len(),
            r@ == texts@.take(i as int),
        decreases texts.len() - i,
    {
        r.push(texts[i].clone());
        assert(texts@.take(i + 1) =~= texts@.take(i as int).push(texts@[i as int]));
        i += 1;
    }
    assert(texts@.take(texts@.len() as int) =~= texts@);
    r
}

impl Clone for PublicKeyPayload {
    fn clone(&self) -> (r: Self)
        ensures
            r.id == self.id,
            r.type_ == self.type_,
            r.jwk == self.jwk,
            r.purpose@ == self.purpose@,
    {
        PublicKeyPayload {
            id: self.id.clone(),
            type_: self.type_.clone(),
            jwk: self.jwk.clone(),
            purpose: clone_texts(&self.purpose),
        }
    }
}

/// What the registry knows about the state of an identifier.
#[derive(Debug, PartialEq, Eq)]
pub struct MethodMetadata {
    pub published: bool,
    pub recovery_commitment: Option<String>,
    pub update_commitment: Option<String>,
}

/// The answer to the resolution of an identifier.
#[derive(Debug, PartialEq, Eq)]
pub struct DIDResolutionResponse {
    pub context: String,
    pub did_document: DIDDocument,
    pub method_metadata: MethodMetadata,
}

/// The keys that later recovery and update operations commit to.
#[derive(Debug, PartialEq, Eq)]
pub struct CommitmentKeys {
    pub recovery: KeyPairSecp256K1,
    pub update: KeyPairSecp256K1,
}

/// What the creation of an identifier is asked with.
#[derive(Debug, PartialEq, Eq)]
pub struct DIDCreateRequest {
    pub public_keys: Vec<PublicKeyPayload>,
    pub commitment_keys: CommitmentKeys,
    pub service_endpoints: Vec<String>,
}

/// The answer to the creation of an identifier.
#[derive(Debug, PartialEq, Eq)]
pub struct DIDCreateResponse {
    pub context: String,
    pub did_document: DIDDocument,
    pub method_metadata: MethodMetadata,
}

/// The document that a `replace` patch installs.
#[derive(Debug, PartialEq, Eq)]
pub struct DIDReplacePayload {
    pub public_keys: Vec<PublicKeyPayload>,
    pub service_endpoints: Vec<String>,
}

/// A patch that replaces the whole document.
#[derive(Debug, PartialEq, Eq)]
pub struct DIDReplaceAction {
    pub action: String,
    pub document: DIDReplacePayload,
}

/// The delta of a create operation: its patches and the commitment to the
/// key of the next update.
#[derive(Debug, PartialEq, Eq)]
pub struct DIDReplaceDeltaObject {
    pub patches: Vec<DIDReplaceAction>,
    pub update_commitment: String,
}

/// The suffix data of a create operation: the hash of the delta and the
/// commitment to the recovery key.
#[derive(Debug, PartialEq, Eq)]
pub struct DIDReplaceSuffixObject {
    pub delta_hash: String,
    pub recovery_commitment: String,
}

/// The request that creates an identifier, with delta and suffix data in
/// their encoded form.
#[derive(Debug, PartialEq, Eq)]
pub struct DIDCreatePayload {
    pub type_: String,
    pub delta: String,
    pub suffix_data: String,
}

/// What one key of a request says, member by member.
pub open spec fn same_key(a: PublicKeyPayload, b: PublicKeyPayload) -> bool {
    &&& a.id == b.id
    &&& a.type_ == b.type_
    &&& a.jwk == b.jwk
    &&& a.purpose@ == b.purpose@
}

/// Whether two lists of keys say the same, key by key and in the same order.
pub open spec fn same_keys(a: Seq<PublicKeyPayload>, b: Seq<PublicKeyPayload>) -> bool {
    &&& a.len() == b.len()
    &&& forall|i: int| 0 <= i < a.len() ==> same_key(#[trigger] a[i], b[i])
}

fn clone_keys(keys: &Vec<PublicKeyPayload>) -> (r: Vec<PublicKeyPayload>)
    ensures
        same_keys(r@, keys@),
{
    let mut r: Vec<PublicKeyPayload> = Vec::new();
    let mut i: usize = 0;
    while i < keys.len()
        invariant
            i <= keys.len(),
            r@.len() == i,
            forall|k: int| 0 <= k < i ==> same_key(#[trigger] r@[k], keys@[k]),
        decreases keys.len() - i,
    {
        r.push(keys[i].clone());
        i += 1;
    }
    r
}

/// The assembly of operations on identifiers.
#[derive(Debug, Clone, Copy, PartialEq, Eq, Structural)]
pub struct OperationPayload {}

impl OperationPayload {
    /// The delta of a create operation: one patch with the action `replace`
    /// that installs the request's keys and service endpoints, and the
    /// commitment to the update key.
    pub fn did_replace_delta(params: &DIDCreateRequest, update_commitment: String) -> (delta:
        DIDReplaceDeltaObject)
        ensures
            delta.patches@.len() == 1,
            delta.patches@[0].action@ == "replace"@,
            same_keys(delta.patches@[0].document.public_keys@, params.public_keys@),
            delta.patches@[0].document.service_endpoints@ == params.service_endpoints@,
            delta.update_commitment == update_commitment,
    {
        let document = DIDReplacePayload {
            public_keys: clone_keys(&params.public_keys),
            service_endpoints: clone_texts(&params.service_endpoints),
        };
        let patch = DIDReplaceAction { action: "replace".to_owned(), document };
        let mut patches: Vec<DIDReplaceAction> = Vec::new();
        patches.push(patch);
        DIDReplaceDeltaObject { patches, update_commitment }
    }

    /// The suffix data of a create operation.
    pub fn did_replace_suffix(delta_hash: String, recovery_commitment: String) -> (suffix:
        DIDReplaceSuffixObject)
        ensures
            suffix.delta_hash == delta_hash,
            suffix.recovery_commitment == recovery_commitment,
    {
        DIDReplaceSuffixObject { delta_hash, recovery_commitment }
    }

    /// The request of type `create` that carries the encoded delta and the
    /// encoded suffix data.
    pub fn did_create_payload(encoded_delta: String, encoded_suffix: String) -> (payload: DIDCreatePayload)
        ensures
            payload.type_@ == "create"@,
            payload.delta == encoded_delta,
            payload.suffix_data == encoded_suffix,
    {
        DIDCreatePayload { type_: "create".to_owned(), delta: encoded_delta, suffix_data: encoded_suffix }
    }
}

} // verus!
