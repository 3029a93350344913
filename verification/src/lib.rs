//! Request handling logic of the Solidity UML visualizer service: which
//! diagram kinds a request asks for, how source files are checked before they
//! are written, how the `sol2uml` tool is called and how its outcome becomes a
//! response or an error.

pub mod response;
pub mod platform;
pub mod internal;
pub mod visualize;
pub mod proto;
pub mod solidity_types;
pub mod metrics;
pub mod types;
pub mod handlers;
pub mod settings;
pub mod health;
pub mod routes;
pub mod jobs;
