//! The sound server: stream objects and the sizing of the blocks the
//! platform layer fills for it.
use vstd::prelude::*;

verus! {

/// A playback stream.
#[allow(non_camel_case_types)]
pub struct pw_stream {
    _opaque: (),
}

/// The sound server's main loop.
#[allow(non_camel_case_types)]
pub struct pw_main_loop {
    _opaque: (),
}

/// The event loop inside a main loop.
#[allow(non_camel_case_types)]
pub struct pw_loop {
    _opaque: (),
}

/// Bytes in one sample of one channel: a 32-bit float.
pub const BYTES_PER_CHANNEL_SAMPLE: u32 = 4;

/// Bytes in one frame of `channels` channels.
pub fn bytes_per_sample(channels: u32) -> (r: u32)
    requires
        channels * BYTES_PER_CHANNEL_SAMPLE <= u32::MAX,
    ensures
        r == channels * BYTES_PER_CHANNEL_SAMPLE,
{
    channels * BYTES_PER_CHANNEL_SAMPLE
}

/// The frames the server asked for, at least one, as a `u32` (keeping its low
/// 32 bits).
pub open spec fn requested_frames(requested: i64) -> u32 {
    (if requested < 1 { 1 } else { requested }) as u32
}

/// The frames the server asked for, at least one, as a `u32`.
pub fn frames_requested(requested: i64) -> (frames: u32)
    ensures
        frames == requested_frames(requested),
{
    let at_least_one: i64 = if requested < 1 { 1 } else { requested };
    at_least_one as u32
}

/// Bytes to fill in a block the server handed over: the frames it asked for
/// (at least one) times the frame size, but no more than the block holds.
pub fn playback_buffer_size(requested: i64, bytes_per_sample: u32, maxsize: u32) -> (size: u32)
    requires
        requested_frames(requested) * bytes_per_sample <= u32::MAX,
    ensures
        size == if requested_frames(requested) * bytes_per_sample <= maxsize {
            requested_frames(requested) * bytes_per_sample
        } else {
            maxsize as int
        },
{
    let frames: u32 = frames_requested(requested);
    let wanted: u32 = frames * bytes_per_sample;
    if wanted <= maxsize {
        wanted
    } else {
        maxsize
    }
}

/// How a filled block is described to the server: data from the start of the
/// block, frames `stride` bytes apart, `size` bytes in all.
pub struct ChunkLayout {
    pub offset: u32,
    pub stride: i32,
    pub size: u32,
}

/// The description of a block filled with `size` bytes of frames of
/// `bytes_per_sample` bytes.
pub fn playback_chunk(bytes_per_sample: u32, size: u32) -> (c: ChunkLayout)
    ensures
        c.offset == 0,
        c.stride == bytes_per_sample as i32,
        c.size == size,
{
    ChunkLayout { offset: 0, stride: bytes_per_sample as i32, size }
}

} // verus!
