//! Verified core of a remote-host provisioning tool.
//!
//! A caller supplies named stages, each activating capabilities (mounting a
//! disk, creating directories, installing packages, and so on).  Every
//! capability can either install (drive remote state toward the declared
//! configuration) or check (report whether it already matches).  This crate
//! holds the decision logic: which remote commands to issue given the facts
//! observed so far, and how to classify what came back.  Running the commands
//! over the remote channel, reading local files and parsing the configuration
//! document are the surrounding binary's concern.

pub mod alias;
pub mod apt;
pub mod aws;
pub mod cli;
pub mod config;
pub mod device;
pub mod docker;
pub mod docker_stats;
pub mod executor;
pub mod git;
pub mod keys;
pub mod mkdir;
pub mod mount;
pub mod node_exporter;
pub mod stage;
pub mod status;
pub mod terraform;
pub mod text;
