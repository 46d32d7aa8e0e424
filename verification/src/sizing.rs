//! How large the pieces of the pipeline are, as functions of the sample rate.

use vstd::prelude::*;

verus! {

/// Blocks synthesised per second of audio: one run of the shader covers an
/// eighth of a second.
pub const BLOCKS_PER_SECOND: u32 = 8;

/// Blocks the audio stream can hold before it stops accepting frames.
pub const STREAM_BLOCKS: u32 = 2;

/// Bytes of one stereo frame in the shader's output region: two 32-bit
/// samples, left then right.
pub const FRAME_BYTES: u64 = 8;

/// Frames produced by one run of the shader at `sample_rate`.
pub open spec fn spec_block_size(sample_rate: u32) -> u32 {
    sample_rate / BLOCKS_PER_SECOND
}

/// Frames the audio stream buffers at `sample_rate`.
pub open spec fn spec_stream_capacity(sample_rate: u32) -> nat {
    (sample_rate as nat) / ((BLOCKS_PER_SECOND / STREAM_BLOCKS) as nat)
}

/// Bytes of the shader's output region at `sample_rate`: room for one second
/// of frames.
pub open spec fn spec_output_bytes(sample_rate: u32) -> u64 {
    (FRAME_BYTES * sample_rate) as u64
}

/// Frames produced by one run of the shader at `sample_rate`.
#[verifier::when_used_as_spec(spec_block_size)]
pub fn block_size(sample_rate: u32) -> (samples: u32)
    ensures
        samples == spec_block_size(sample_rate),
{
    sample_rate / BLOCKS_PER_SECOND
}

/// Frames the audio stream buffers at `sample_rate`.
pub fn stream_capacity(sample_rate: u32) -> (frames: usize)
    ensures
        frames == spec_stream_capacity(sample_rate),
        frames == sample_rate / 4,
{
    let frames: u32 = sample_rate / (BLOCKS_PER_SECOND / STREAM_BLOCKS);
    frames as usize
}

/// Bytes of the shader's output region at `sample_rate`.
#[verifier::when_used_as_spec(spec_output_bytes)]
pub fn output_bytes(sample_rate: u32) -> (bytes: u64)
    ensures
        bytes == spec_output_bytes(sample_rate),
        bytes == 8 * sample_rate,
{
    FRAME_BYTES * (sample_rate as u64)
}

/// The output region always holds at least one block, and the stream holds
/// at least two: a block read back from the region is never short, and a
/// block can be queued while the one before it plays.
pub proof fn block_fits(sample_rate: u32)
    ensures
        FRAME_BYTES * spec_block_size(sample_rate) <= spec_output_bytes(sample_rate),
        STREAM_BLOCKS * spec_block_size(sample_rate) <= spec_stream_capacity(sample_rate),
        spec_block_size(sample_rate) * BLOCKS_PER_SECOND <= sample_rate,
{
}

} // verus!
