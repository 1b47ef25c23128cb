//! Verified core of an analysis server: the decisions that its HTTP endpoints
//! make, stated over plain values and proved against their contracts.

pub mod asyncvfile;
pub mod auth;
pub mod config;
pub mod cors;
pub mod data;
pub mod http;
pub mod json;
pub mod node;
pub mod plugin;
pub mod search;
pub mod server;
pub mod staticfileserver;
pub mod task;
pub mod text;
