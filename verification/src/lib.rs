//! A verified bridge between Rust's async/await and Python's asyncio event loop.
//!
//! Python is asked for everything through a [`python::Session`], which keeps a ghost history of
//! what was asked and what came back. The contracts of this library say, for every function,
//! exactly which events it adds to the history of the session that it is handed, and how its
//! result follows from the replies. A closure of the caller's comes in a [`python::Handoff`], so
//! that its call is one of these events and cannot go unrecorded.
//!
//! - [`with_runtime`] initializes the event loop, runs a function, and closes the event loop;
//! - [`run_forever`] and [`generic::run_until_complete`] run the event loop;
//! - [`into_future`] turns a Python coroutine into something that Rust can await;
//! - [`generic::into_coroutine`] turns a Rust future into something that Python can await.
pub mod event_loop;
pub mod generic;
pub mod globals;
pub mod laws;
pub mod plan;
pub mod python;
pub mod task;

pub use event_loop::{get_event_loop, run_forever, with_runtime};
pub use task::into_future;
