//! A real-time fan-out messaging core: a registry of broadcast channels
//! addressed by room (mission) and by identity (user), the per-connection
//! session lifecycle that subscribes to them, and the envelope carried on
//! every channel.

pub mod domain;
pub mod manager;
pub mod message;
pub mod session;
pub mod use_cases;
