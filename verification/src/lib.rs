//! EMS (External Media Server): the rules of an AudioSocket server that enriches calls with speech
//! recognition, speech synthesis, audio playback and call termination.
//!
//! Everything here works on plain values. Sockets, timers, configuration files, JSON and gRPC are
//! handled by the program around the library, which feeds it events and carries out what it decides.

/// AudioSocket messages and their frames.
pub mod message;

/// Errors of AudioSocket connections.
pub mod server;

/// Receiving of messages.
pub mod stream;

/// Spans of time.
pub mod time;

/// EMS configuration.
pub mod config;

/// Speech-to-text interfaces.
pub mod recognition;

/// Keys of Google services (for both TTS and STT).
pub mod google;

/// Google Cloud Speech-to-Text.
pub mod gcs;

/// Google Cloud Text-to-Speech.
pub mod gctts;

/// Text-to-speech interfaces.
pub mod synthesis;

/// Actions of message handlers.
pub mod action;

/// Channels to message handlers and services.
pub mod channel;

/// Message handler database.
pub mod db;

/// WebSocket API, that works as a bridge between EMS and clients.
pub mod ws;

/// Various services, including speech recognition and voice synthesis.
pub mod service;

/// Graceful shutdown for calls
pub mod shutdown;

/// AudioSocket message handler.
pub mod handler;


/// What may be relied on, stated of calls by what goes in and what comes out.
pub mod laws;
