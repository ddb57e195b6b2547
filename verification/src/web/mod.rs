//! The API that the Web UI speaks to.

pub mod arguments;
pub mod commands;
pub mod feed;
pub mod json;
pub mod upload;
