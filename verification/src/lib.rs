//! Core state machine of a terminal client for a cloud-storage daemon.
//!
//! The daemon performs all real storage work; this library owns the
//! application state: panel focus, list selections, the navigation path,
//! the modal forms (login, confirm, create/edit remote) and the
//! authentication-retry protocol. Every daemon round trip is described as
//! an [`session::DaemonCall`] handed to the surrounding run loop, whose
//! result comes back as a [`session::CallOutcome`]; the transitions in
//! between are verified.

pub mod credentials;
pub mod error;
pub mod handler;
pub mod manager;
pub mod modal;
pub mod session;
pub mod state;
pub mod textops;
