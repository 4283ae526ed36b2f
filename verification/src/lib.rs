//! Navigation policy and settings logic of a desktop client that wraps the
//! OneNote web application.

pub mod text;
pub mod weburl;
pub mod config;
pub mod navigation;
pub mod settings;
