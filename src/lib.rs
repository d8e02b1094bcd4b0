//! Admission and lifecycle coordination for a TCP server: a shared, bounded
//! count of live connections, the decisions of the accept loop, and a model
//! of the whole server with the laws it keeps.

pub mod acceptor;
pub mod admission;
pub mod config;
pub mod model;
pub mod server;
