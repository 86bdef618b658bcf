//! The parts of the HTTP route handlers that decide what to answer.

pub mod chat;
pub mod frontend_logs;
pub mod hub;
pub mod model;
pub mod tools;
pub mod download;
pub mod conversation;
pub mod system;
pub mod files;
pub mod static_files;
