//! Core of the Quantum Interlink Protocol: the protocol-wide configuration and
//! the engine that owns it.

pub mod config;
pub mod decimal;
pub mod engine;
pub mod errors;

pub use config::QIPConfig;
pub use engine::QIPEngine;
pub use errors::QIPError;
