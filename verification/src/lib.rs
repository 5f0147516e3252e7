//! Broker for a local Ollama chat applet.
//!
//! The heart of the crate is a streaming request broker: typed requests go
//! in, JSON request bodies go out on the wire, and the newline-delimited
//! JSON chunks that the model server streams back are decoded into typed
//! events.  Everything that computes — body encoding, chunk decoding, the
//! dispatcher's slot discipline, the listener's event sequence — is verified
//! here; the surrounding process (HTTP, channels, files) lives outside.

pub mod broker;
pub mod chat;
pub mod chunk;
pub mod markdown;
pub mod models;
pub mod parse;
pub mod settings;
pub mod text;
pub mod window;
pub mod wire;

pub use settings::Settings;
