//! Verified core of a deployment tool for running an Oxide rack on
//! commodity hardware: parsers for command output, the build pipeline model,
//! configuration logic and the decisions behind recovery and monitoring.
use vstd::prelude::*;

pub mod access;
pub mod action;
pub mod cache_setup;
pub mod channel;
pub mod cli;
pub mod config;
pub mod console;
pub mod dashboard;
pub mod demo;
pub mod direct;
pub mod deploy;
pub mod discover;
pub mod document;
pub mod editor;
pub mod git;
pub mod import;
pub mod init;
pub mod loader;
pub mod monitor;
pub mod nexus;
pub mod order;
pub mod parse;
pub mod pipeline;
pub mod os_setup;
pub mod pkg_cache;
pub mod prereqs;
pub mod provision;
pub mod proxmox;
pub mod recover;
pub mod ssh;
pub mod status;
pub mod text;
pub mod watchdog;

verus! {
} // verus!
