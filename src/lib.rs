//! Core logic of a sandboxed remote code execution service: limit
//! negotiation, sandbox command lines and metadata parsing, environment-file
//! loading, the runtime registry and the installation and execution
//! protocols.

pub mod text;

pub mod limits;
pub mod metadata;
pub mod isolate;
pub mod env_file;
pub mod registry;
pub mod execution;
pub mod signals;
pub mod globals;
pub mod admission;
pub mod installation;
pub mod responses;
pub mod listing;
