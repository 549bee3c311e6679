//! WaveCord: a Lavalink v3/v4 client engine. The wire format, the
//! normalization of v3 to the version-neutral model, the reconnect and
//! reader decisions and the command surface of a node, verified.

pub mod codec;
pub mod decode;
pub mod error;
pub mod json;
pub mod model;
pub mod node;
pub mod protocol;
pub mod rest;
pub mod text;
pub mod ws;

pub use error::{Error, Result};
pub use node::config::NodeConfig;
pub use node::supervisor::backoff;
pub use protocol::LavalinkVersion;
