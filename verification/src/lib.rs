//! A streaming Vorbis-encoder adapter: the session state machine, the
//! output-buffer ownership protocol, and the engine status-code mapping
//! that sit between chunked PCM input and a native compression engine.

pub mod buffer;
pub mod error;
pub mod session;

pub use buffer::OutputBuffer;
pub use error::VorbisError;
pub use session::Encoder;
pub use session::SessionState;
