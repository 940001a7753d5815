//! Request handling for a todo service: validation, dispatch and the
//! uniform response envelope, with every decision stated as a contract.
//!
//! The layer never performs a controller operation itself. Each handler
//! returns a [`handlers::Step`]: either the one controller call that the
//! request asks for, or the envelope that answers it at once. The caller
//! performs the call and hands its result to the matching `*_response`
//! function, which renders the final envelope.

pub mod identifier;
pub mod validation;
pub mod envelope;
pub mod handlers;
pub mod router;
