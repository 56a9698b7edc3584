use vstd::prelude::*;
use crate::cache::{spec_target_key, target_key, ResourceCache, TextureKey};
use crate::format::{
    spec_bytes_per_pixel, spec_depth_from_tag, spec_depth_scale, spec_host_format,
    spec_upload_format, BitDepth, PixelFormat, Ratio,
};
use crate::layout::{padded_row_bytes, spec_round_up, staging_size, unpadded_row_bytes};

verus! {

/// Time uniforms of one frame, from the host's integer time units.
#[derive(Clone, Copy, Debug, PartialEq, Eq, Structural)]
pub struct FrameTiming {
    /// Elapsed time is `time / time_scale` seconds.
    pub elapsed: Ratio,
    /// Frames so far: `time / delta`, rounded down.
    pub frame_count: u32,
    /// The delta uniform, `delta * time_scale`.
    pub delta: u64,
}

/// Byte layout of a frame's readback.
#[derive(Clone, Copy, Debug, PartialEq, Eq, Structural)]
pub struct Readback {
    /// Bytes per row in the host's buffer.
    pub unpadded: u32,
    /// Bytes per row in the staging buffer.
    pub padded: u32,
    /// Bytes in the staging buffer.
    pub staging_size: u64,
}

/// How one host image is brought into the main shader.
#[derive(Clone, Copy, Debug, PartialEq, Eq, Structural)]
pub struct ImagePlan {
    pub depth: BitDepth,
    /// Format of the raw upload of the host's bytes.
    pub upload: PixelFormat,
    /// Size and format of the texture the ingest stage writes.
    pub key: TextureKey,
    /// The ingest shader's `depth_scale`.
    pub scale: Ratio,
}

/// What a render of one frame has to do before encoding.
#[derive(Clone, Copy, Debug, PartialEq, Eq, Structural)]
pub struct FramePlan {
    pub timing: FrameTiming,
    pub readback: Readback,
    /// Whether the target and final textures must be allocated anew.
    pub new_targets: bool,
    /// Whether the staging buffer must be allocated anew.
    pub new_staging: bool,
}

/// Plans a `width` x `height` frame at `depth` against what `cache` holds;
/// `None` when `delta` is zero or the frame's buffers do not fit in 32 bits.
pub fn plan_frame<T, B>(
    cache: &ResourceCache<T, B>,
    time: u32,
    time_scale: u32,
    delta: u32,
    width: u32,
    height: u32,
    depth: BitDepth,
) -> (r: Option<FramePlan>)
    ensures
        ({
            let row = width * spec_bytes_per_pixel(spec_host_format(depth));
            &&& r is Some <==> delta != 0 && row + 255 <= u32::MAX && height * spec_round_up(row)
                <= u32::MAX
            &&& r matches Some(p) ==> {
                &&& p.timing.elapsed == (Ratio { num: time, den: time_scale })
                &&& p.timing.frame_count == time / delta
                &&& p.timing.delta == delta * time_scale
                &&& p.readback.unpadded == row
                &&& p.readback.padded == spec_round_up(row)
                &&& p.readback.staging_size == height * p.readback.padded
                &&& p.new_targets == !cache.spec_target_hit(width, height)
                &&& p.new_staging == (cache.staging_len() != Some(p.readback.staging_size))
            }
        }),
{
    let timing = match frame_timing(time, time_scale, delta) {
        Some(t) => t,
        None => {
            return None;
        },
    };
    match readback(width, height, depth) {
        None => None,
        Some(rb) => Some(
            FramePlan {
                timing,
                readback: rb,
                new_targets: !cache.target_hit(width, height),
                new_staging: !cache.staging_hit(rb.staging_size),
            },
        ),
    }
}

pub fn frame_timing(time: u32, time_scale: u32, delta: u32) -> (r: Option<FrameTiming>)
    ensures
        r is None <==> delta == 0,
        r matches Some(t) ==> t.elapsed == (Ratio { num: time, den: time_scale }) && t.frame_count
            == time / delta && t.delta == delta * time_scale,
{
    if delta == 0 {
        None
    } else {
        assert(delta * time_scale <= u32::MAX * u32::MAX) by (nonlinear_arith);
        Some(
            FrameTiming {
                elapsed: Ratio { num: time, den: time_scale },
                frame_count: time / delta,
                delta: (delta as u64) * (time_scale as u64),
            },
        )
    }
}

/// The readback layout for a `width` x `height` frame at `depth`; `None` when a
/// row or the staging buffer does not fit in 32 bits.
pub fn readback(width: u32, height: u32, depth: BitDepth) -> (r: Option<Readback>)
    ensures
        ({
            let row = width * spec_bytes_per_pixel(spec_host_format(depth));
            &&& r is Some <==> row + 255 <= u32::MAX && height * spec_round_up(row) <= u32::MAX
            &&& r matches Some(b) ==> b.unpadded == row && b.padded == spec_round_up(row)
                && b.staging_size == height * b.padded
        }),
{
    let bpp = depth.host_format().bytes_per_pixel();
    match padded_row_bytes(width, bpp) {
        None => None,
        Some(padded) => {
            let unpadded = match unpadded_row_bytes(width, bpp) {
                Some(n) => n,
                None => {
                    return None;
                },
            };
            let size = staging_size(height, padded);
            if size > u32::MAX as u64 {
                None
            } else {
                Some(Readback { unpadded, padded, staging_size: size })
            }
        },
    }
}

/// Plans the ingest of a host image of `data_len` bytes tagged `tag`: images
/// without data or with an unknown tag are skipped.
pub fn plan_image(data_len: usize, width: u32, height: u32, tag: u32) -> (r: Option<ImagePlan>)
    ensures
        r is None <==> data_len == 0 || spec_depth_from_tag(tag) is None,
        r matches Some(p) ==> Some(p.depth) == spec_depth_from_tag(tag) && p.upload
            == spec_upload_format(p.depth) && p.key == spec_target_key(width, height, p.depth)
            && p.scale == spec_depth_scale(p.depth),
{
    if data_len == 0 {
        return None;
    }
    match BitDepth::from_tag(tag) {
        None => None,
        Some(depth) => Some(
            ImagePlan {
                depth,
                upload: depth.upload_format(),
                key: target_key(width, height, depth),
                scale: depth.depth_scale(),
            },
        ),
    }
}

} // verus!
