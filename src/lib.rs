//! Support for the Odin language in the Zed editor: locating the `ols`
//! language server, rendering completion and symbol labels, and turning
//! `odin run` / `odin test` tasks into debug sessions.

pub mod config;
pub mod debug;
pub mod extension;
pub mod json;
pub mod labels;
pub mod platform;
pub mod resolver;
pub mod text;
