//! Core logic of LuneWeb: the decisions behind module loading, window
//! bookkeeping, Lua thread bookkeeping, event loop dispatch, HTTP responses
//! produced from Lua values, and the application configuration defaults.
pub mod path;
pub mod response;
pub mod webview;
pub mod windows;
pub mod app;
pub mod config;
pub mod connection;
pub mod ctx;
pub mod event_loop;
pub mod libraries;
pub mod message;
pub mod scheduler;

