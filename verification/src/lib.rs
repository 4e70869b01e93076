//! The message-routing core of a DIDComm mediator: the coordinate-mediation
//! and pickup protocol handlers, the store they act on, and the
//! routing of an authenticated inbound message to its handler.

pub mod config;
pub mod didcomm_handlers;
pub mod encoding;
pub mod http_routes;
pub mod ident;
pub mod keys;
pub mod mediation;
pub mod messages;
pub mod persistence;
pub mod text;
