//! Verified core of a desktop front end for the OpenVPN 3 command-line client.

pub mod text;
pub mod model;
pub mod parse;
pub mod manager_spec;
pub mod manager;
pub mod config;
pub mod app_state;
pub mod laws;
