//! A session-safe gateway core for a line-oriented search-engine subprocess.
//!
//! The crate holds the verified heart of the gateway: the busy/idle state
//! machine, the admission screens for outbound commands, per-option value
//! validation against engine-advertised shapes, resource-limit clamping, and
//! the decision logic of the handshake orchestration.  Reading and writing
//! the subprocess streams is left to a thin unverified shell that hands
//! already-decoded events in and carries returned commands out.

pub mod engine;
pub mod laws;
pub mod options;
pub mod proto;
pub mod text;

pub use engine::Engine;
pub use engine::EngineParameters;
pub use proto::Session;
