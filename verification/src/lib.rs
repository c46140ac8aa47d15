//! Control of Android emulators: configuration, discovery, authentication and
//! the decisions behind starting, connecting to and stopping them.

pub mod auth;
pub mod cache;
pub mod client;
pub mod config;
pub mod discovery;
pub mod emulator;
pub mod encoding;
pub mod error;
pub mod ini;
pub mod jwt;
pub mod keys;
pub mod log;
pub mod process;
pub mod sdk;
pub mod spawn;
pub mod text;
pub mod time;
pub mod unix;
pub mod windows;
pub mod xtask;
