//! A bookmark manager's core: the bookmark tree and its edits, its JSON form,
//! the exchange with a versioned remote copy, and the coordination of syncs.

pub mod document;
pub mod json;
pub mod codec;
pub mod settings;
pub mod text;
pub mod remote;
pub mod sync;
pub mod status;
pub mod dispatcher;
pub mod pages;
