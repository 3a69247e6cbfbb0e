//! The session and routing engine of an end-to-end-encrypted chat relay:
//! the envelope model, the session registry, the offline queue, the router,
//! and the decisions of one connection in the authentication sub-protocol.

pub mod envelope;
pub mod registry;
pub mod queue;
pub mod credentials;
pub mod router;
pub mod session;
