//! The data model of a verifiable credential.

use vstd::prelude::*;

verus! {

/// Who issued a credential.
#[derive(Debug, PartialEq, Eq)]
pub struct Issuer {
    pub id: String,
}

/// What a credential is about: the subject and the container with the claims.
#[derive(Debug, PartialEq, Eq)]
pub struct CredentialSubject {
    pub id: String,
    pub container: serde_json::Value,
}

/// The proof that binds a credential to its issuer.
#[derive(Debug, PartialEq, Eq)]
pub struct Proof {
    pub type_: String,
    pub proof_purpose: String,
    pub created: String,
    pub verification_method: String,
    pub jws: String,
    pub controller: Option<String>,
    pub challenge: Option<String>,
    pub domain: Option<String>,
}

/// A verifiable credential.
#[derive(Debug, PartialEq, Eq)]
pub struct GeneralVcDataModel {
    pub id: String,
    pub issuer: Issuer,
    pub issuance_date: String,
    pub expiration_date: Option<String>,
    pub context: Vec<String>,
    pub type_: Vec<String>,
    pub credential_subject: CredentialSubject,
    pub proof: Option<Proof>,
}

impl GeneralVcDataModel {
    /// Whether the credential carries a proof.
    pub fn is_signed(&self) -> (r: bool)
        ensures
            r == self.proof.is_some(),
    {
        self.proof.is_some()
    }
}

} // verus!
