//! Request routing and control-channel logic of the Sandra desktop gateway.
//!
//! The gateway stands between the mini-applications that the desktop shell
//! hosts and everything they ask for. This crate holds what the gateway
//! decides; it performs no I/O. The shell around it fetches, reads, sends and
//! waits, and reports back what happened.
//!
//! * [`router`] classifies each request and walks the chain of handlers.
//! * [`local`] resolves paths into the bundle of an installed application.
//! * [`proxy`] rewrites what the external site proxy and the remote tunnel
//!   relay.
//! * [`context`] remembers the last external site.
//! * [`control`] keeps the link to the backend's control endpoint alive and
//!   dispatches its commands.
//! * [`connection`], [`apps`], [`database`], [`telemetry`] and [`pdf`] hold
//!   the records of the shell's other commands and what is computed of
//!   them.
//! * [`http`] and [`text`] are the models that the rest is stated over, and
//!   [`parsers`] is where other crates are called.

pub mod apps;
pub mod connection;
pub mod context;
pub mod control;
pub mod database;
pub mod http;
pub mod local;
pub mod parsers;
pub mod pdf;
pub mod proxy;
pub mod router;
pub mod telemetry;
pub mod text;
