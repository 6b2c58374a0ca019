//! Launch preparation for a game runtime: resolving manifests, fetching
//! artifacts, running installer steps and assembling process arguments.

pub mod accounts;
pub mod consts;
pub mod download;
pub mod fabric;
pub mod forge;
pub mod install_profile;
pub mod installer;
pub mod instances;
pub mod java;
pub mod launching;
pub mod libraries;
pub mod manifests;
pub mod mc_structs;
pub mod notifier;
pub mod platform;
pub mod settings;
pub mod text;
pub mod ui;
pub mod utils;
