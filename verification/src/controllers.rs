//! The controllers of the example applications.

pub mod counter;
pub mod vault;
pub mod image;
pub mod movie;
