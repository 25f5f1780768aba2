//! A local registry of tracked projects, each named by a glyph
//! `@organization/project`, with an active and a default project.
pub mod commands;
pub mod env;
pub mod errors;
pub mod glyph;
pub mod logging;
pub mod plugins;
pub mod scanner;
pub mod settings;
pub mod splash;
pub mod statehandler;
pub mod text;
pub mod widget;
