//! Decision logic of the University of Edinburgh Microsoft sign-in flow.
//!
//! The sign-in is driven through a browser by the application around this
//! library; every decision that flow takes (which page we landed on, what to
//! do next, when to retry, when to give up) is made here, over plain values,
//! and is proved against its contract.
pub mod auth_flow;
pub mod text;
pub mod ms_handlers;
pub mod session;
pub mod laws;
