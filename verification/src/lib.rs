//! Trust-anchor provisioning and listener lifecycle for a local
//! HTTPS-intercepting proxy.
//!
//! The library decides; its host acts. Whatever touches the outside world (a
//! process, a file, the network) is named as a value and handed to the
//! host, whose report the library takes as its next input. Every decision is
//! stated as a function on mathematical values and proved of the code.
//!
//! - [`cert_manager`]: the root certificate authority, its files, and the
//!   generation of a new one.
//! - [`install`]: installing the authority into the platform's trust store.
//! - [`cleanup`]: removing stale trust entries before a new generation.
//! - [`proxy`]: the single-listener start and stop controller.
//! - [`shell`]: the state behind the window and its commands.
//! - [`config`]: the user's preferences.
//! - [`effect`], [`error`], [`platform`], [`text`]: what the others share.

pub mod cert_manager;
pub mod cleanup;
pub mod config;
pub mod effect;
pub mod error;
pub mod install;
pub mod platform;
pub mod proxy;
pub mod shell;
pub mod text;
