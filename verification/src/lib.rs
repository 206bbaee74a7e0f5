//! Verified core of a small CRUD service for a single "sample" resource.
//!
//! The crate holds the decisions of the service and none of its I/O: what a
//! request asks of the relational store, which event follows a mutation,
//! how a command from the broker maps to a service call, who may pass the
//! authentication gate and what answer a caller gets. Everything that
//! touches a socket, a database connection or a clock lives with the
//! embedding program, which performs the actions described here and hands
//! the results back as plain values.

pub mod api;
pub mod db;
pub mod decimal;
pub mod headers;
pub mod json;
pub mod kafka;
pub mod laws;
pub mod log;
pub mod middleware;
pub mod models;
pub mod password;
pub mod response;
pub mod router;
pub mod services;
pub mod session;
pub mod templates;
pub mod web;
