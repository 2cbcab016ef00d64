//! The core of the `dr` ecosystem: masked secrets and connection profiles.
#![allow(unused_imports)]

pub mod config;
pub mod environment;
pub mod error;
pub mod host;
pub mod lookup;
pub mod port;
pub mod resolution;
pub mod secrets;
pub mod store;
