//! Decision logic of a camera relay: debouncing of detection results, the
//! recording session state machine, the ingest framing, the latest-wins frame
//! slot and the multipart live stream.
mod bytes;
pub mod debounce;
pub mod framing;
pub mod recording;
pub mod session;
pub mod slot;
pub mod stream;
