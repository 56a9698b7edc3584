use vstd::prelude::*;

verus! {

/// Numeric pixel format of the host's buffers.
#[derive(Clone, Copy, Debug, PartialEq, Eq, Structural)]
pub enum BitDepth {
    /// 8-bit unsigned, full range.
    Eight,
    /// 16-bit unsigned, centred on 32768.
    Sixteen,
    /// 32-bit float.
    Float32,
}

/// GPU texture formats that the pipeline allocates or reads.
#[derive(Clone, Copy, Debug, PartialEq, Eq, Structural)]
pub enum PixelFormat {
    Rgba8Unorm,
    Rgba16Uint,
    Rgba16Unorm,
    Rgba16Float,
    Rgba32Float,
}

/// An exact ratio `num / den`, for scale factors handed to shader uniforms.
#[derive(Clone, Copy, Debug, PartialEq, Eq, Structural)]
pub struct Ratio {
    pub num: u32,
    pub den: u32,
}

/// Which fixed conversion shader turns the main stage's output into host pixels.
#[derive(Clone, Copy, Debug, PartialEq, Eq, Structural)]
pub enum EgressShader {
    /// For 8-bit and float hosts: a straight copy into the host format.
    Plain,
    /// For 16-bit hosts: remaps the float intermediate into the centred range.
    Sixteen,
}

pub open spec fn spec_depth_from_tag(tag: u32) -> Option<BitDepth> {
    if tag == 0 {
        Some(BitDepth::Eight)
    } else if tag == 1 {
        Some(BitDepth::Sixteen)
    } else if tag == 2 {
        Some(BitDepth::Float32)
    } else {
        None
    }
}

pub open spec fn spec_tag(d: BitDepth) -> u32 {
    match d {
        BitDepth::Eight => 0,
        BitDepth::Sixteen => 1,
        BitDepth::Float32 => 2,
    }
}

/// The host-facing format of each bit depth.
pub open spec fn spec_host_format(d: BitDepth) -> PixelFormat {
    match d {
        BitDepth::Eight => PixelFormat::Rgba8Unorm,
        BitDepth::Sixteen => PixelFormat::Rgba16Uint,
        BitDepth::Float32 => PixelFormat::Rgba32Float,
    }
}

/// The format the user shader renders into: 16-bit hosts go through a half-float texture.
pub open spec fn spec_intermediate_format(d: BitDepth) -> PixelFormat {
    match d {
        BitDepth::Sixteen => PixelFormat::Rgba16Float,
        _ => spec_host_format(d),
    }
}

/// The format in which a host image's raw bytes are uploaded before ingest.
pub open spec fn spec_upload_format(d: BitDepth) -> PixelFormat {
    match d {
        BitDepth::Eight => PixelFormat::Rgba8Unorm,
        BitDepth::Sixteen => PixelFormat::Rgba16Unorm,
        BitDepth::Float32 => PixelFormat::Rgba32Float,
    }
}

/// Scale the ingest shader applies: a 16-bit host uses only `0..=32768`, so its
/// normalised values are stretched by `65535 / 32768`.
pub open spec fn spec_depth_scale(d: BitDepth) -> Ratio {
    match d {
        BitDepth::Sixteen => Ratio { num: 65535, den: 32768 },
        _ => Ratio { num: 1, den: 1 },
    }
}

pub open spec fn spec_bytes_per_pixel(f: PixelFormat) -> u32 {
    match f {
        PixelFormat::Rgba8Unorm => 4,
        PixelFormat::Rgba16Uint => 8,
        PixelFormat::Rgba16Unorm => 8,
        PixelFormat::Rgba16Float => 8,
        PixelFormat::Rgba32Float => 16,
    }
}

pub open spec fn spec_egress_shader(d: BitDepth) -> EgressShader {
    match d {
        BitDepth::Sixteen => EgressShader::Sixteen,
        _ => EgressShader::Plain,
    }
}

impl BitDepth {
    /// Reads the host's tag: 0 is 8-bit, 1 is 16-bit, 2 is float; others are unknown.
    pub fn from_tag(tag: u32) -> (r: Option<BitDepth>)
        ensures
            r == spec_depth_from_tag(tag),
    {
        if tag == 0 {
            Some(BitDepth::Eight)
        } else if tag == 1 {
            Some(BitDepth::Sixteen)
        } else if tag == 2 {
            Some(BitDepth::Float32)
        } else {
            None
        }
    }

    pub fn tag(&self) -> (r: u32)
        ensures
            r == spec_tag(*self),
            spec_depth_from_tag(r) == Some(*self),
    {
        match self {
            BitDepth::Eight => 0,
            BitDepth::Sixteen => 1,
            BitDepth::Float32 => 2,
        }
    }

    pub fn host_format(&self) -> (r: PixelFormat)
        ensures
            r == spec_host_format(*self),
    {
        match self {
            BitDepth::Eight => PixelFormat::Rgba8Unorm,
            BitDepth::Sixteen => PixelFormat::Rgba16Uint,
            BitDepth::Float32 => PixelFormat::Rgba32Float,
        }
    }

    pub fn intermediate_format(&self) -> (r: PixelFormat)
        ensures
            r == spec_intermediate_format(*self),
    {
        match self {
            BitDepth::Sixteen => PixelFormat::Rgba16Float,
            _ => self.host_format(),
        }
    }

    pub fn upload_format(&self) -> (r: PixelFormat)
        ensures
            r == spec_upload_format(*self),
    {
        match self {
            BitDepth::Eight => PixelFormat::Rgba8Unorm,
            BitDepth::Sixteen => PixelFormat::Rgba16Unorm,
            BitDepth::Float32 => PixelFormat::Rgba32Float,
        }
    }

    /// The ingest scale factor: `65535 / 32768` for 16-bit, exactly 1 otherwise.
    pub fn depth_scale(&self) -> (r: Ratio)
        ensures
            r == spec_depth_scale(*self),
            *self == BitDepth::Sixteen ==> r.num == 65535 && r.den == 32768,
            *self != BitDepth::Sixteen ==> r.num == r.den,
            r.den > 0,
    {
        match self {
            BitDepth::Sixteen => Ratio { num: 65535, den: 32768 },
            _ => Ratio { num: 1, den: 1 },
        }
    }

    pub fn egress_shader(&self) -> (r: EgressShader)
        ensures
            r == spec_egress_shader(*self),
    {
        match self {
            BitDepth::Sixteen => EgressShader::Sixteen,
            _ => EgressShader::Plain,
        }
    }
}

impl PixelFormat {
    /// Size in bytes of one RGBA texel.
    pub fn bytes_per_pixel(&self) -> (r: u32)
        ensures
            r == spec_bytes_per_pixel(*self),
            4 <= r <= 16,
    {
        match self {
            PixelFormat::Rgba8Unorm => 4,
            PixelFormat::Rgba16Uint => 8,
            PixelFormat::Rgba16Unorm => 8,
            PixelFormat::Rgba16Float => 8,
            PixelFormat::Rgba32Float => 16,
        }
    }
}

} // verus!
