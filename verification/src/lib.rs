//! Qpipe: scheduled AI workflow groups.
//!
//! The library holds the workflow configuration, the request that is sent to
//! the chat model for a task group, the routing and job bookkeeping of the
//! relay server, and the launch decisions for each group's stream script.
pub mod config;
pub mod models;
pub mod run;
pub mod command;
pub mod server;
