//! Verified core of a developer command-line tool that automates AWS SSO
//! credential resolution and CodeCommit pull-request creation.
//!
//! The library holds the parsing, validity and workflow logic; running
//! external commands, reading files and touching the process environment is
//! left to the thin binary around it, which feeds the results back in as
//! plain values.

pub mod constants;
pub mod custom_error;
pub mod text;
pub mod json;
pub mod timestamp;
pub mod logger;
pub mod zsh_command;
pub mod cli;
pub mod location;
pub mod aws_sso;
pub mod aws_pr;
pub mod aws_cli;
