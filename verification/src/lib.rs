//! Verified core of the Haxe language support for the Zed editor.

pub mod text;
pub mod haxelib;
pub mod extension;
pub mod language_server;
pub mod labels;
pub mod json;
pub mod http;
pub mod vs;
