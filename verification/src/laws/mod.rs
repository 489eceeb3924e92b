/// Writing, reading and receiving of AudioSocket messages.
pub mod message;

/// Configuration of the application and of calls.
pub mod config;

/// The handler database, its actions, and shutdown.
pub mod database;

/// Message handlers.
pub mod handler;

/// Services and their tasks.
pub mod service;

/// WebSocket API.
pub mod ws;

/// Google Cloud drivers.
pub mod google;
