//! Operator tooling for the Dhara Storage workspace: command-line handling,
//! repository configuration, csproj metadata synchronisation, logging names
//! and release planning, with their behaviour stated as Verus contracts.

pub mod text;
pub mod paths;
pub mod strmap;
pub mod xml;
pub mod csproj;
pub mod repo_config;
pub mod manifest;
pub mod drift;
pub mod command;
pub mod activation;
pub mod registry;
pub mod cli;
pub mod logging;
pub mod trid;
pub mod runner;
pub mod workspace;
pub mod native_rids;
pub mod release;
pub mod args;
pub mod commands;
pub mod defs;
pub mod tui;
pub mod quality;
pub mod gui;
pub mod rank;
