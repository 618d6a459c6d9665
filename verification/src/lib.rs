//! The core of a package manager for component-based applications: the
//! package graph, the registry of installed packages, and the passes that
//! hold the one against the other.

pub mod cmd;
pub mod engine;
pub mod engine_proofs;
pub mod graph;
pub mod installation;
pub mod installation_proofs;
pub mod pkg_info;
pub mod registry;
pub mod report;
