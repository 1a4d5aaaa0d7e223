//! A capture-and-delivery pipeline for screenshots: a filter that decides
//! which filesystem events stand for a finished screenshot write, title
//! resolution for the application that took it, a delivery abstraction over
//! the configured destination backend with its credential lifecycle, and a
//! durable retry queue that keeps failed deliveries until they succeed,
//! across process restarts.

pub mod config;
pub mod credentials;
pub mod database;
pub mod retry;
pub mod steam;
pub mod strutil;
pub mod uploaders;
pub mod watcher;
