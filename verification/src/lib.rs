//! Real-time audio synthesis driven by a compute shader.
//!
//! A worker runs one entry point of a shader once per control interval. Each
//! run yields a block of stereo frames, which is streamed into a bounded
//! buffer that the audio callback drains. The shader and its parameters can
//! be replaced while sound is playing.
//!
//! This crate holds the decisions of that pipeline: which programs come of
//! what the shader compiler made of a source and which of them is active,
//! how commands change the worker's state, what parameters each run
//! observes, and how a block is pushed into the stream when the stream only
//! takes part of it. The compiler, the device and the audio output run
//! outside it and hand it plain values. Samples are
//! carried and never computed on, so every item is generic over the sample
//! type `S`.

pub mod display;
pub mod messages;
pub mod registry;
pub mod relay;
pub mod sizing;
pub mod stream;
pub mod worker;
