//! Resolution of a static-file server's configuration: the route table
//! built from command-line paths or from a configuration document, its
//! validation, and the choice of which source wins.
pub mod addr;
pub mod error;
pub mod route;
pub mod config;
pub mod resolve;
