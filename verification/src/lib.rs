//! Verified core of a harness that drives the Grok Build agent.

pub mod action;
pub mod catalog;
pub mod catalog_laws;
pub mod child;
pub mod discovery;
pub mod executable;
pub mod handshake;
pub mod harness;
pub mod json;
pub mod message_id;
pub mod normalize;
pub mod process_laws;
pub mod proto;
pub mod requests;
pub mod session;
pub mod session_laws;
pub mod step_laws;
pub mod text;
pub mod tool_laws;
pub mod turn_laws;
pub mod value_laws;
pub mod view_laws;
pub mod wire_laws;
