//! The browser backend.

pub mod chrome;
pub mod chrome_common;
