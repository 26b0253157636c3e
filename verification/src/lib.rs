//! A verified core of the connection handshake between two
//! decentralized-identity agents: an Inviter offers a connection, an
//! Invitee accepts it, and both advance a strict role-specific state
//! machine that derives and preserves the conversation's thread id.
//! Key provisioning, signing, verification and delivery are collaborator
//! interfaces injected by the caller.

pub mod collaborators;
pub mod connection;
pub mod did_doc;
pub mod error;
pub mod ids;
pub mod invitee;
pub mod inviter;
pub mod ledger;
pub mod messages;
pub mod pairwise_info;
pub mod thread;
