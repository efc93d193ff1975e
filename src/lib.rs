//! Harvesting of parameter documentation from text trees, and the
//! interactive session that browses and edits kernel parameters.

pub mod document;
pub mod parser;
pub mod text;
pub mod sysctl;
pub mod app;
pub mod cli;
