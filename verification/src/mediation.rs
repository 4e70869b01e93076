//! The protocol handlers: from an authenticated message and the store to the
//! reply and the store's new state.

pub mod coordination;
pub mod pickup;
pub mod report;
