//! Inference session engine of a local, on-device chat backend: the model
//! catalog, session sizing, prompt assembly under a token budget, the
//! token generation loop and the model activation state machine.
pub mod activation;
pub mod catalog;
pub mod config;
pub mod conversation;
pub mod fetcher;
pub mod generation;
pub mod paths;
pub mod prompt;
pub mod session;
pub mod settings;
pub mod text;
