//! Server side of the WebAuthn passkey registration ceremony: challenge issue,
//! pending-session records with a lifetime, single-use consumption, and the
//! decisions taken when a signed response comes back.

pub mod decimal;
pub mod engine;
pub mod model;
pub mod record;
pub mod registration;
pub mod route;
pub mod store;
pub mod text;
