//! Texture sampling configuration: wrap modes and filters, together with
//! their GL enumerant encoding and the proof that encoding is invertible.

use vstd::prelude::*;

verus! {

/// How texture coordinates outside `[0, 1]` are mapped back onto the image.
#[derive(Clone, Copy, Debug, PartialEq, Eq, Structural)]
pub enum WrapMode {
    Repeat,
    MirroredRepeat,
    ClampToEdge,
    ClampToBorder,
}

/// The filter used when a texture is sampled at less than its base resolution.
#[derive(Clone, Copy, Debug, PartialEq, Eq, Structural)]
pub enum MinFilter {
    Nearest,
    Linear,
    NearestMipmapNearest,
    LinearMipmapNearest,
    NearestMipmapLinear,
    LinearMipmapLinear,
}

/// The filter used when a texture is sampled at more than its base resolution.
#[derive(Clone, Copy, Debug, PartialEq, Eq, Structural)]
pub enum MagFilter {
    Nearest,
    Linear,
}

impl WrapMode {
    /// The GL enumerant for this wrap mode.
    pub open spec fn spec_code(self) -> u32 {
        match self {
            WrapMode::Repeat => 0x2901,
            WrapMode::MirroredRepeat => 0x8370,
            WrapMode::ClampToEdge => 0x812F,
            WrapMode::ClampToBorder => 0x812D,
        }
    }

    /// The wrap mode a GL enumerant names, if any.
    pub open spec fn spec_from_code(code: u32) -> Option<WrapMode> {
        if code == 0x2901 {
            Some(WrapMode::Repeat)
        } else if code == 0x8370 {
            Some(WrapMode::MirroredRepeat)
        } else if code == 0x812F {
            Some(WrapMode::ClampToEdge)
        } else if code == 0x812D {
            Some(WrapMode::ClampToBorder)
        } else {
            None
        }
    }

    /// Encodes the wrap mode as its GL enumerant.
    pub fn code(self) -> (c: u32)
        ensures
            c == self.spec_code(),
    {
        match self {
            WrapMode::Repeat => 0x2901,
            WrapMode::MirroredRepeat => 0x8370,
            WrapMode::ClampToEdge => 0x812F,
            WrapMode::ClampToBorder => 0x812D,
        }
    }

    /// Reads a wrap mode back from its GL enumerant.
    pub fn from_code(code: u32) -> (r: Option<WrapMode>)
        ensures
            r == Self::spec_from_code(code),
    {
        if code == 0x2901 {
            Some(WrapMode::Repeat)
        } else if code == 0x8370 {
            Some(WrapMode::MirroredRepeat)
        } else if code == 0x812F {
            Some(WrapMode::ClampToEdge)
        } else if code == 0x812D {
            Some(WrapMode::ClampToBorder)
        } else {
            None
        }
    }
}

impl MinFilter {
    /// The GL enumerant for this minification filter.
    pub open spec fn spec_code(self) -> u32 {
        match self {
            MinFilter::Nearest => 0x2600,
            MinFilter::Linear => 0x2601,
            MinFilter::NearestMipmapNearest => 0x2700,
            MinFilter::LinearMipmapNearest => 0x2701,
            MinFilter::NearestMipmapLinear => 0x2702,
            MinFilter::LinearMipmapLinear => 0x2703,
        }
    }

    /// The minification filter a GL enumerant names, if any.
    pub open spec fn spec_from_code(code: u32) -> Option<MinFilter> {
        if code == 0x2600 {
            Some(MinFilter::Nearest)
        } else if code == 0x2601 {
            Some(MinFilter::Linear)
        } else if code == 0x2700 {
            Some(MinFilter::NearestMipmapNearest)
        } else if code == 0x2701 {
            Some(MinFilter::LinearMipmapNearest)
        } else if code == 0x2702 {
            Some(MinFilter::NearestMipmapLinear)
        } else if code == 0x2703 {
            Some(MinFilter::LinearMipmapLinear)
        } else {
            None
        }
    }

    /// Encodes the filter as its GL enumerant.
    pub fn code(self) -> (c: u32)
        ensures
            c == self.spec_code(),
    {
        match self {
            MinFilter::Nearest => 0x2600,
            MinFilter::Linear => 0x2601,
            MinFilter::NearestMipmapNearest => 0x2700,
            MinFilter::LinearMipmapNearest => 0x2701,
            MinFilter::NearestMipmapLinear => 0x2702,
            MinFilter::LinearMipmapLinear => 0x2703,
        }
    }

    /// Reads a minification filter back from its GL enumerant.
    pub fn from_code(code: u32) -> (r: Option<MinFilter>)
        ensures
            r == Self::spec_from_code(code),
    {
        if code == 0x2600 {
            Some(MinFilter::Nearest)
        } else if code == 0x2601 {
            Some(MinFilter::Linear)
        } else if code == 0x2700 {
            Some(MinFilter::NearestMipmapNearest)
        } else if code == 0x2701 {
            Some(MinFilter::LinearMipmapNearest)
        } else if code == 0x2702 {
            Some(MinFilter::NearestMipmapLinear)
        } else if code == 0x2703 {
            Some(MinFilter::LinearMipmapLinear)
        } else {
            None
        }
    }
}

impl MagFilter {
    /// The GL enumerant for this magnification filter.
    pub open spec fn spec_code(self) -> u32 {
        match self {
            MagFilter::Nearest => 0x2600,
            MagFilter::Linear => 0x2601,
        }
    }

    /// The magnification filter a GL enumerant names, if any.
    pub open spec fn spec_from_code(code: u32) -> Option<MagFilter> {
        if code == 0x2600 {
            Some(MagFilter::Nearest)
        } else if code == 0x2601 {
            Some(MagFilter::Linear)
        } else {
            None
        }
    }

    /// Encodes the filter as its GL enumerant.
    pub fn code(self) -> (c: u32)
        ensures
            c == self.spec_code(),
    {
        match self {
            MagFilter::Nearest => 0x2600,
            MagFilter::Linear => 0x2601,
        }
    }

    /// Reads a magnification filter back from its GL enumerant.
    pub fn from_code(code: u32) -> (r: Option<MagFilter>)
        ensures
            r == Self::spec_from_code(code),
    {
        if code == 0x2600 {
            Some(MagFilter::Nearest)
        } else if code == 0x2601 {
            Some(MagFilter::Linear)
        } else {
            None
        }
    }
}

/// The complete sampling configuration of one texture object.
#[derive(Clone, Copy, Debug, PartialEq, Eq, Structural)]
pub struct TexParams {
    pub wrap_s: WrapMode,
    pub wrap_t: WrapMode,
    pub min_filter: MinFilter,
    pub mag_filter: MagFilter,
}

impl TexParams {
    /// The configuration a fresh texture object starts with.
    pub open spec fn spec_initial() -> TexParams {
        TexParams {
            wrap_s: WrapMode::Repeat,
            wrap_t: WrapMode::Repeat,
            min_filter: MinFilter::NearestMipmapLinear,
            mag_filter: MagFilter::Linear,
        }
    }

    /// The configuration a fresh texture object starts with.
    pub fn initial() -> (p: TexParams)
        ensures
            p == Self::spec_initial(),
    {
        TexParams {
            wrap_s: WrapMode::Repeat,
            wrap_t: WrapMode::Repeat,
            min_filter: MinFilter::NearestMipmapLinear,
            mag_filter: MagFilter::Linear,
        }
    }

    /// This configuration encoded as GL enumerants: wrap on each axis, then
    /// the minification and magnification filters.
    pub open spec fn spec_codes(self) -> (u32, u32, u32, u32) {
        (
            self.wrap_s.spec_code(),
            self.wrap_t.spec_code(),
            self.min_filter.spec_code(),
            self.mag_filter.spec_code(),
        )
    }

    /// The configuration a tuple of GL enumerants names, if every one is known.
    pub open spec fn spec_from_codes(codes: (u32, u32, u32, u32)) -> Option<TexParams> {
        match (
            WrapMode::spec_from_code(codes.0),
            WrapMode::spec_from_code(codes.1),
            MinFilter::spec_from_code(codes.2),
            MagFilter::spec_from_code(codes.3),
        ) {
            (Some(ws), Some(wt), Some(mi), Some(ma)) => Some(
                TexParams { wrap_s: ws, wrap_t: wt, min_filter: mi, mag_filter: ma },
            ),
            _ => None,
        }
    }
}

/// Law: encoding a wrap mode and reading the code back yields the same mode.
pub proof fn lemma_wrap_code_round_trip(m: WrapMode)
    ensures
        WrapMode::spec_from_code(m.spec_code()) == Some(m),
{
}

/// Law: encoding a minification filter and reading the code back yields the
/// same filter.
pub proof fn lemma_min_filter_code_round_trip(f: MinFilter)
    ensures
        MinFilter::spec_from_code(f.spec_code()) == Some(f),
{
}

/// Law: encoding a magnification filter and reading the code back yields the
/// same filter.
pub proof fn lemma_mag_filter_code_round_trip(f: MagFilter)
    ensures
        MagFilter::spec_from_code(f.spec_code()) == Some(f),
{
}

/// Law: encoding a whole sampling configuration as GL enumerants and reading
/// the enumerants back yields the same configuration.
pub proof fn lemma_params_code_round_trip(p: TexParams)
    ensures
        TexParams::spec_from_codes(p.spec_codes()) == Some(p),
{
    lemma_wrap_code_round_trip(p.wrap_s);
    lemma_wrap_code_round_trip(p.wrap_t);
    lemma_min_filter_code_round_trip(p.min_filter);
    lemma_mag_filter_code_round_trip(p.mag_filter);
}

} // verus!
