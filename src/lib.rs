//! A client core for a web chat service reached through an undocumented
//! HTTP interface: session state and continuity tokens, the doubly encoded
//! turn request, and a decoder for the reply envelope in both observed
//! layouts.
pub mod json;
pub mod lines;
pub mod scan;
pub mod envelope;
pub mod request;
pub mod session;
