//! The agent's service: its identifier and its own update.
//!
//! Looking an identifier up, creating one and keeping the keyring are the
//! host's work, each of them a call that may take long or fail. The service
//! says what to do next after each of them.

use vstd::prelude::*;
use crate::sidetree::DIDResolutionResponse;
use crate::update::{allowed, UpdateCoordinator, UpdateError, UpdateView};

verus! {

/// What the host reports while the identifier is being established.
#[derive(Debug, PartialEq, Eq)]
pub enum IdentifierEvent {
    /// The keyring was looked at: it holds the identifier `saved`, or none.
    Started { saved: Option<String> },
    /// The saved identifier was looked up in the registry.
    Found { response: Option<DIDResolutionResponse> },
    /// A new identifier was created in the registry.
    Created { response: DIDResolutionResponse },
}

/// What the host has to do next.
#[derive(Debug, PartialEq, Eq)]
pub enum IdentifierAction {
    /// Look the identifier up in the registry.
    Find { did: String },
    /// Make a new keyring and create an identifier for it.
    Create,
    /// Save the keyring under the new identifier, then hand the response out.
    Save { did: String, response: DIDResolutionResponse },
    /// Hand the response out: the identifier exists.
    Return { response: DIDResolutionResponse },
}

/// The action that follows an event: a saved identifier is looked up, and
/// used if the registry knows it; in every other case a new one is created
/// and saved under the identifier that its document carries.
pub open spec fn next_action(event: IdentifierEvent) -> IdentifierAction {
    match event {
        IdentifierEvent::Started { saved: Some(did) } => IdentifierAction::Find { did },
        IdentifierEvent::Started { saved: None } => IdentifierAction::Create,
        IdentifierEvent::Found { response: Some(response) } => IdentifierAction::Return { response },
        IdentifierEvent::Found { response: None } => IdentifierAction::Create,
        IdentifierEvent::Created { response } => IdentifierAction::Save {
            did: response.did_document.id,
            response,
        },
    }
}

/// The agent's service.
#[derive(Debug, PartialEq, Eq)]
pub struct NodeX {
    allowed_prefix: String,
}

impl NodeX {
    /// A service that accepts updates from locations that begin with
    /// `allowed_prefix`.
    pub fn new(allowed_prefix: String) -> (r: Self)
        ensures
            r.allowed_prefix()@ == allowed_prefix@,
    {
        NodeX { allowed_prefix }
    }

    /// The prefix that every download location has to begin with.
    pub closed spec fn allowed_prefix(&self) -> String {
        self.allowed_prefix
    }

    /// Establishes the identifier of the agent, one event at a time.
    pub fn create_identifier(&self, event: IdentifierEvent) -> (action: IdentifierAction)
        ensures
            action == next_action(event),
    {
        match event {
            IdentifierEvent::Started { saved: Some(did) } => IdentifierAction::Find { did },
            IdentifierEvent::Started { saved: None } => IdentifierAction::Create,
            IdentifierEvent::Found { response: Some(response) } => IdentifierAction::Return { response },
            IdentifierEvent::Found { response: None } => IdentifierAction::Create,
            IdentifierEvent::Created { response } => {
                let did = response.did_document.id.clone();
                IdentifierAction::Save { did, response }
            },
        }
    }

    /// Opens the update to the binary at `binary_url`.
    ///
    /// A location outside the allowed prefix is rejected with an integrity
    /// error; no step of the protocol is handed out for it.
    pub fn update_version(&self, binary_url: &str) -> (r: Result<UpdateCoordinator, UpdateError>)
        ensures
            r.is_ok() == allowed(binary_url@, self.allowed_prefix()@),
            r.is_err() ==> r == Err::<UpdateCoordinator, UpdateError>(UpdateError::IntegrityError),
            r.is_ok() ==> r.unwrap()@ == (UpdateView {
                binary_source_url: binary_url@,
                install_directory: None,
                backup_location: None,
                completed: 0,
                failure: None,
            }),
    {
        UpdateCoordinator::begin(binary_url.to_owned(), self.allowed_prefix.as_str())
    }
}

} // verus!
