//! Supervision and self-update core of a long-running identity-node agent.

pub mod default_state;
pub mod didcomm;
pub mod errors;
pub mod extract;
pub mod launcher;
pub mod nodex;
pub mod runtime;
pub mod schema;
pub mod seq_lemmas;
pub mod sidetree;
pub mod update;
