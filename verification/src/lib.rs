//! A companion for running jest-lua tests in Roblox Studio.
pub mod ansi;
pub mod cli;
pub mod config;
pub mod json;
pub mod json_io;
pub mod laws;
pub mod mcp;
pub mod options;
pub mod run;
pub mod studio;
pub mod text;
pub mod tools;
