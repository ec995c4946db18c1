//! A configuration-driven static content builder: a registry of named
//! workers, a task dispatcher, and the templating worker's content
//! pipeline, with the file system and the engines kept at the edge.
pub mod value;
pub mod json;
pub mod text;
pub mod error;
pub mod engine;
pub mod worker;
pub mod blueprint;
