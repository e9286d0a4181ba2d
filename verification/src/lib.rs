//! Alakit: the verified core of a hybrid desktop application framework.
//!
//! The library computes every decision of the framework from plain values:
//! the JavaScript it sends to the web view, the encrypted state store, the
//! routing of messages that come from the web view, and the controllers of
//! the bundled example applications.

pub mod text;
pub mod dom;
pub mod secure;
pub mod codec;
pub mod raster;
pub mod store;
pub mod engine;
pub mod number;
pub mod context;
pub mod controllers;
pub mod codegen;
