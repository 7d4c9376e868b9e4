//! Stream-processing services: operator graphs with typed sources and sinks.
//!
//! The library holds the decisions of a service: how operators are wired and
//! what they emit, how requests of every transport are opened, driven and
//! closed, and which configuration is accepted. A driver performs the I/O that
//! the decisions ask for.
pub mod datasink;
pub mod datasource;
pub mod operators;
pub mod runtime;
