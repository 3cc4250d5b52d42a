//! Least-privilege object-storage credentials for named applications.

pub mod clock;
pub mod config;
pub mod exoscale;
pub mod http;
pub mod json;
pub mod policy;
pub mod provision;
pub mod scaleway;
pub mod signing;
pub mod text;
