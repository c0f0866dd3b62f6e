pub mod config;
pub mod engine;
pub mod errors;
pub mod event_listeners;
pub mod extension;
pub mod handshake;
pub mod maybe_sender;
pub mod request;
pub mod strategies;
pub mod status;
