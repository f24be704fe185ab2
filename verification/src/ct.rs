//! Certificate Transparency logs.

pub mod catalog;
