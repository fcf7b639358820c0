//! Frame pipeline for real-time video background removal.
//!
//! The crate holds the pure, verified core of the pipeline: the packed
//! 4:2:2 colorspace codec, the planar tensor adapter, the alpha
//! compositor, the single-assignment background reference holder, and
//! the streaming state machine with its frame-rate counter. Device I/O
//! and model inference live outside this crate and exchange plain byte
//! buffers and tensors with it.

pub mod background;
pub mod codec;
pub mod compositor;
pub mod pump;
pub mod tensor;
