//! The core of a streaming audio client: a jitter buffer that decides when
//! playback starts and stops, the bridge that fills the audio device's
//! blocks, the connection state machine of the network task, and the
//! cancellation token that ties a session to its controller.
//!
//! Everything here is sequential and free of I/O. The transport, the codec,
//! the audio device and the window are driven by the caller, which feeds
//! their results in as plain values.

pub mod audio_client;
pub mod audio_socket;
pub mod audio_stream;
pub mod format;
pub mod gfx_system;
pub mod gui;
pub mod single_buffer_sender;
pub mod token;
