//! The data of the commands, and what a command computes from it.

pub mod cmd_dev_server;
pub mod cmd_package;
