//! Verified core of the mefirst intercepting HTTP proxy.

pub mod capability;
pub mod config;
pub mod error;
pub mod headers;
pub mod logging;
pub mod paths;
pub mod plugin;
pub mod process;
pub mod proxy;
pub mod redirect;
pub mod text;
pub mod upstream;
