//! Texture resources: one GPU texture object per `Texture` value.
//!
//! A texture is built in one decode-and-upload step: raw bytes are decoded
//! into a tightly packed 8-bit RGB pixel buffer, a texture object is
//! generated and bound, its wrap modes are set to mirrored repeat on both
//! axes and its filters to linear-mipmap-linear minification and linear
//! magnification, the buffer is uploaded as the base level, and the full
//! mipmap chain is generated from it.

use vstd::prelude::*;
use crate::context::{CtxView, GlCall, GlContext, ImageData, TexInfo};
use crate::error::{is_resource_load, Error};
use crate::params::{MagFilter, MinFilter, TexParams, WrapMode};

verus! {

/// What decoding a given byte string as an 8-bit RGB image yields: the
/// width, height and tightly packed pixel buffer, or nothing when the bytes
/// are not a decodable image. Decoding depends on the bytes alone.
pub uninterp spec fn rgb_decode_of(bytes: Seq<u8>) -> Option<(u32, u32, Seq<u8>)>;

/// A decoded image: an 8-bit RGB pixel buffer and its dimensions, tightly
/// packed with three bytes per pixel and no padding.
pub struct DecodedRgb {
    width: u32,
    height: u32,
    pixels: Vec<u8>,
}

impl DecodedRgb {
    /// The width in pixels.
    pub closed spec fn spec_width(&self) -> u32 {
        self.width
    }

    /// The height in pixels.
    pub closed spec fn spec_height(&self) -> u32 {
        self.height
    }

    /// The pixel buffer: three bytes per pixel, row-major.
    pub closed spec fn spec_pixels(&self) -> Seq<u8> {
        self.pixels@
    }

    /// The buffer is tightly packed: exactly three bytes for each of
    /// width × height pixels.
    pub open spec fn wf(&self) -> bool {
        self.spec_pixels().len() == self.spec_width() * self.spec_height() * 3
    }

    /// Wraps a pixel buffer with its dimensions, accepting it only when it is
    /// tightly packed: a mismatched buffer would upload as a corrupted image.
    pub fn new(width: u32, height: u32, pixels: Vec<u8>) -> (r: Option<DecodedRgb>)
        ensures
            match r {
                Some(img) => {
                    &&& img.wf()
                    &&& img.spec_width() == width
                    &&& img.spec_height() == height
                    &&& img.spec_pixels() == pixels@
                },
                None => pixels@.len() != width * height * 3,
            },
    {
        proof {
            assert((width as int) * (height as int) * 3 <= u128::MAX) by (nonlinear_arith)
                requires
                    width as int <= u32::MAX as int,
                    height as int <= u32::MAX as int,
            ;
        }
        let expected: u128 = (width as u128) * (height as u128) * 3;
        if (pixels.len() as u128) == expected {
            Some(DecodedRgb { width, height, pixels })
        } else {
            None
        }
    }

    /// The width in pixels.
    pub fn width(&self) -> (w: u32)
        ensures
            w == self.spec_width(),
    {
        self.width
    }

    /// The height in pixels.
    pub fn height(&self) -> (h: u32)
        ensures
            h == self.spec_height(),
    {
        self.height
    }

    /// The pixel buffer: three bytes per pixel, row-major.
    pub fn pixels(&self) -> (p: &Vec<u8>)
        ensures
            p@ == self.spec_pixels(),
    {
        &self.pixels
    }
}

/// Relies on image::load_from_memory and image::DynamicImage::to_rgb8: what
/// they decode depends on the input bytes alone, and the RGB buffer they
/// produce is freshly allocated at exactly width × height × 3 bytes.
#[verifier::external_body]
fn decode_rgb_bytes(bytes: &Vec<u8>) -> (r: Result<(u32, u32, Vec<u8>), String>)
    ensures
        match r {
            Ok(t) => rgb_decode_of(bytes@) == Some((t.0, t.1, t.2@)) && t.2@.len() == t.0 * t.1
                * 3,
            Err(_) => rgb_decode_of(bytes@) is None,
        },
{
    let decoded = match image::load_from_memory(bytes) {
        Ok(decoded) => decoded,
        Err(cause) => return Err(cause.to_string()),
    };
    let rgb = decoded.to_rgb8();
    let (width, height) = rgb.dimensions();
    Ok((width, height, rgb.into_raw()))
}

/// Decodes raw image bytes into a tightly packed 8-bit RGB image, reporting
/// its dimensions; fails with the decoder's message when the bytes are not a
/// decodable image.
pub fn decode_rgb(bytes: &Vec<u8>) -> (r: Result<DecodedRgb, String>)
    ensures
        match r {
            Ok(img) => {
                &&& img.wf()
                &&& rgb_decode_of(bytes@) == Some(
                    (img.spec_width(), img.spec_height(), img.spec_pixels()),
                )
            },
            Err(_) => rgb_decode_of(bytes@) is None,
        },
{
    match decode_rgb_bytes(bytes) {
        Ok(t) => Ok(DecodedRgb { width: t.0, height: t.1, pixels: t.2 }),
        Err(cause) => Err(cause),
    }
}

/// The sampling configuration every upload installs: mirrored repeat on both
/// axes, trilinear minification, linear magnification.
pub open spec fn spec_upload_params() -> TexParams {
    TexParams {
        wrap_s: WrapMode::MirroredRepeat,
        wrap_t: WrapMode::MirroredRepeat,
        min_filter: MinFilter::LinearMipmapLinear,
        mag_filter: MagFilter::Linear,
    }
}

/// The sampling configuration every upload installs.
pub fn upload_params() -> (p: TexParams)
    ensures
        p == spec_upload_params(),
{
    TexParams {
        wrap_s: WrapMode::MirroredRepeat,
        wrap_t: WrapMode::MirroredRepeat,
        min_filter: MinFilter::LinearMipmapLinear,
        mag_filter: MagFilter::Linear,
    }
}

/// The calls one upload issues, in order: generation, binding, the four
/// sampling parameters, the base-level upload, mipmap generation.
pub open spec fn upload_calls(id: u32, width: u32, height: u32, pixels: Seq<u8>) -> Seq<GlCall> {
    seq![
        GlCall::GenTexture { texture: id },
        GlCall::BindTexture { texture: id },
        GlCall::SetWrapS { texture: id, mode: WrapMode::MirroredRepeat },
        GlCall::SetWrapT { texture: id, mode: WrapMode::MirroredRepeat },
        GlCall::SetMinFilter { texture: id, filter: MinFilter::LinearMipmapLinear },
        GlCall::SetMagFilter { texture: id, filter: MagFilter::Linear },
        GlCall::TexImage2D { texture: id, width, height, pixels },
        GlCall::GenerateMipmap { texture: id },
    ]
}

/// The context delta of one upload that returned the texture `t`: exactly one
/// new live texture object carrying the upload configuration, the base-level
/// image and a mipmap chain; the new object is left bound; and exactly the
/// calls of the upload logged.
pub open spec fn upload_post(
    pre: CtxView,
    post: CtxView,
    width: u32,
    height: u32,
    pixels: Seq<u8>,
    t: Texture,
) -> bool {
    &&& !pre.textures.dom().contains(t.spec_id())
    &&& t.live_in(post)
    &&& post.textures == pre.textures.insert(
        t.spec_id(),
        TexInfo {
            params: spec_upload_params(),
            image: Some(ImageData { width, height, pixels }),
            mipmapped: true,
        },
    )
    &&& post.shaders == pre.shaders
    &&& post.programs == pre.programs
    &&& post.used_program == pre.used_program
    &&& post.bound_texture == t.spec_id()
    &&& post.log == pre.log + upload_calls(t.spec_id(), width, height, pixels)
}

/// Law: the configuration an upload writes reads back unchanged — after an
/// upload, the context reports for the new texture exactly the upload
/// configuration, whose GL encoding is itself invertible.
pub proof fn lemma_upload_config_round_trip(
    pre: CtxView,
    post: CtxView,
    width: u32,
    height: u32,
    pixels: Seq<u8>,
    t: Texture,
)
    requires
        upload_post(pre, post, width, height, pixels, t),
    ensures
        post.textures[t.spec_id()].params == spec_upload_params(),
        TexParams::spec_from_codes(post.textures[t.spec_id()].params.spec_codes()) == Some(
            spec_upload_params(),
        ),
{
    crate::params::lemma_params_code_round_trip(spec_upload_params());
}

/// A GPU texture object holding one uploaded image, alive in the context that
/// created it until released.
pub struct Texture {
    id: u32,
}

impl Texture {
    /// The GPU object id this texture owns.
    pub closed spec fn spec_id(&self) -> u32 {
        self.id
    }

    /// The texture's object is alive in the context state `c`.
    pub open spec fn live_in(&self, c: CtxView) -> bool {
        c.textures.dom().contains(self.spec_id())
    }

    /// The GPU object id this texture owns.
    pub fn id(&self) -> (r: u32)
        ensures
            r == self.spec_id(),
    {
        self.id
    }

    /// Uploads a decoded image into a fresh texture object: generates and
    /// binds the object, installs the upload configuration, uploads the base
    /// level and generates its mipmap chain. The new object stays bound.
    pub fn from_decoded_image(ctx: &mut GlContext, img: &DecodedRgb) -> (t: Texture)
        requires
            old(ctx).wf(),
            old(ctx).can_allocate(1),
            img.wf(),
        ensures
            final(ctx).wf(),
            final(ctx).id_bound() == old(ctx).id_bound() + 1,
            upload_post(
                old(ctx)@,
                final(ctx)@,
                img.spec_width(),
                img.spec_height(),
                img.spec_pixels(),
                t,
            ),
    {
        let id = ctx.gen_texture();
        ctx.bind_texture(id);
        ctx.set_wrap_s(WrapMode::MirroredRepeat);
        ctx.set_wrap_t(WrapMode::MirroredRepeat);
        ctx.set_min_filter(MinFilter::LinearMipmapLinear);
        ctx.set_mag_filter(MagFilter::Linear);
        ctx.tex_image_2d(img.width(), img.height(), img.pixels());
        ctx.generate_mipmap();
        proof {
            assert(ctx@.textures =~= old(ctx)@.textures.insert(
                id,
                TexInfo {
                    params: spec_upload_params(),
                    image: Some(
                        ImageData {
                            width: img.spec_width(),
                            height: img.spec_height(),
                            pixels: img.spec_pixels(),
                        },
                    ),
                    mipmapped: true,
                },
            ));
            assert(ctx@.log =~= old(ctx)@.log + upload_calls(
                id,
                img.spec_width(),
                img.spec_height(),
                img.spec_pixels(),
            ));
        }
        Texture { id }
    }

    /// Builds a texture from a named resource: `loaded` is the resource
    /// loader's reply for `name`; its bytes are decoded as an 8-bit RGB image
    /// and uploaded. A loader failure or undecodable bytes fail before
    /// anything touches the context.
    pub fn from_res(ctx: &mut GlContext, loaded: &Result<Vec<u8>, String>, name: &str) -> (r:
        Result<Texture, Error>)
        requires
            old(ctx).wf(),
            old(ctx).can_allocate(1),
        ensures
            final(ctx).wf(),
            old(ctx).id_bound() <= final(ctx).id_bound() <= old(ctx).id_bound() + 1,
            loaded matches Err(le) ==> (r matches Err(e) && is_resource_load(e, name@, le@)
                && final(ctx)@ == old(ctx)@ && final(ctx).id_bound() == old(ctx).id_bound()),
            loaded matches Ok(bytes) ==> {
                &&& rgb_decode_of(bytes@) is None ==> (r matches Err(e) && (e matches
                    Error::ImageError { name: n, inner: _ } && n@ == name@) && final(ctx)@ == old(
                    ctx,
                )@ && final(ctx).id_bound() == old(ctx).id_bound())
                &&& rgb_decode_of(bytes@) matches Some(d) ==> (r matches Ok(t) && upload_post(
                    old(ctx)@,
                    final(ctx)@,
                    d.0,
                    d.1,
                    d.2,
                    t,
                ) && final(ctx).id_bound() == old(ctx).id_bound() + 1)
            },
    {
        let bytes = match loaded {
            Ok(bytes) => bytes,
            Err(cause) => {
                return Err(Error::ResourceLoad { name: name.to_owned(), inner: cause.clone() });
            },
        };
        let img = match decode_rgb(bytes) {
            Ok(img) => img,
            Err(cause) => {
                return Err(Error::ImageError { name: name.to_owned(), inner: cause });
            },
        };
        Ok(Texture::from_decoded_image(ctx, &img))
    }

    /// Releases the texture's GPU object. Taking the texture by value, this
    /// can happen at most once; shader and program resources release their
    /// objects the same way, and textures are no exception. Releasing the
    /// bound texture leaves no texture bound.
    pub fn release(self, ctx: &mut GlContext)
        requires
            old(ctx).wf(),
            self.live_in(old(ctx)@),
        ensures
            final(ctx).wf(),
            final(ctx)@.textures == old(ctx)@.textures.remove(self.spec_id()),
            final(ctx)@.shaders == old(ctx)@.shaders,
            final(ctx)@.programs == old(ctx)@.programs,
            final(ctx)@.used_program == old(ctx)@.used_program,
            final(ctx)@.bound_texture == (
                if old(ctx)@.bound_texture == self.spec_id() {
                    0u32
                } else {
                    old(ctx)@.bound_texture
                }
            ),
            final(ctx)@.log == old(ctx)@.log.push(
                GlCall::DeleteTexture { texture: self.spec_id() },
            ),
            final(ctx).id_bound() == old(ctx).id_bound(),
    {
        ctx.delete_texture(self.id);
    }
}

} // verus!
