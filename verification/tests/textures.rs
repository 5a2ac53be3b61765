use std::io::Cursor;

use render_gl::context::GlContext;
use render_gl::error::Error;
use render_gl::params::{MagFilter, MinFilter, TexParams, WrapMode};
use render_gl::texture::{decode_rgb, upload_params, DecodedRgb, Texture};

/// A 2×2 all-red image encoded as PNG bytes.
fn red_2x2_png() -> Vec<u8> {
    let img = image::RgbImage::from_pixel(2, 2, image::Rgb([255, 0, 0]));
    let mut bytes: Vec<u8> = Vec::new();
    img.write_to(&mut Cursor::new(&mut bytes), image::ImageFormat::Png)
        .unwrap();
    bytes
}

#[test]
fn decode_reports_dimensions_and_tight_buffer() {
    let bytes = red_2x2_png();
    let img = decode_rgb(&bytes).unwrap();
    assert_eq!(img.width(), 2);
    assert_eq!(img.height(), 2);
    assert_eq!(img.pixels().len(), 12);
    assert_eq!(
        img.pixels().as_slice(),
        &[255, 0, 0, 255, 0, 0, 255, 0, 0, 255, 0, 0]
    );
}

#[test]
fn decode_rejects_bytes_that_are_no_image() {
    let bytes: Vec<u8> = vec![0, 1, 2, 3, 4, 5, 6, 7];
    assert!(decode_rgb(&bytes).is_err());
}

#[test]
fn decoded_rgb_new_accepts_only_tight_buffers() {
    assert!(DecodedRgb::new(2, 2, vec![0u8; 12]).is_some());
    assert!(DecodedRgb::new(2, 2, vec![0u8; 11]).is_none());
    assert!(DecodedRgb::new(2, 2, vec![0u8; 16]).is_none());
    assert!(DecodedRgb::new(0, 0, Vec::new()).is_some());
}

#[test]
fn upload_installs_mirrored_trilinear_configuration() {
    let mut ctx = GlContext::new();
    let img = DecodedRgb::new(2, 2, vec![128u8; 12]).unwrap();
    let t = Texture::from_decoded_image(&mut ctx, &img);
    assert!(ctx.is_texture_live(t.id()));
    // re-reading the configuration from the context yields what was set
    let p = ctx.texture_params(t.id()).unwrap();
    assert_eq!(p, upload_params());
    assert_eq!(p.wrap_s, WrapMode::MirroredRepeat);
    assert_eq!(p.wrap_t, WrapMode::MirroredRepeat);
    assert_eq!(p.min_filter, MinFilter::LinearMipmapLinear);
    assert_eq!(p.mag_filter, MagFilter::Linear);
    t.release(&mut ctx);
    assert!(!ctx.is_texture_live(1));
}

#[test]
fn wrap_and_filter_codes_round_trip() {
    let wraps = [
        WrapMode::Repeat,
        WrapMode::MirroredRepeat,
        WrapMode::ClampToEdge,
        WrapMode::ClampToBorder,
    ];
    for w in wraps {
        assert_eq!(WrapMode::from_code(w.code()), Some(w));
    }
    let mins = [
        MinFilter::Nearest,
        MinFilter::Linear,
        MinFilter::NearestMipmapNearest,
        MinFilter::LinearMipmapNearest,
        MinFilter::NearestMipmapLinear,
        MinFilter::LinearMipmapLinear,
    ];
    for m in mins {
        assert_eq!(MinFilter::from_code(m.code()), Some(m));
    }
    for m in [MagFilter::Nearest, MagFilter::Linear] {
        assert_eq!(MagFilter::from_code(m.code()), Some(m));
    }
    assert_eq!(WrapMode::from_code(0), None);
    assert_eq!(MinFilter::from_code(1), None);
    assert_eq!(MagFilter::from_code(0x2703), None);
}

#[test]
fn upload_codes_match_gl_enumerants() {
    let p = upload_params();
    assert_eq!(p.wrap_s.code(), 0x8370);
    assert_eq!(p.min_filter.code(), 0x2703);
    assert_eq!(p.mag_filter.code(), 0x2601);
}

#[test]
fn texture_from_res_decodes_and_uploads() {
    let mut ctx = GlContext::new();
    let bytes = red_2x2_png();
    let t = Texture::from_res(&mut ctx, &Ok(bytes), "textures/wall.png").unwrap();
    assert!(ctx.is_texture_live(t.id()));
    assert_eq!(ctx.current_texture(), t.id());
    assert_eq!(ctx.texture_params(t.id()).unwrap(), upload_params());
}

#[test]
fn texture_from_res_reports_loader_failure() {
    let mut ctx = GlContext::new();
    let r = Texture::from_res(&mut ctx, &Err(String::from("gone")), "textures/wall.jpg");
    let e = r.err().unwrap();
    assert!(matches!(e, Error::ResourceLoad { .. }));
    assert_eq!(e.message(), "Failed to load resource textures/wall.jpg: gone");
    assert!(!ctx.is_texture_live(1));
}

#[test]
fn texture_from_res_reports_decode_failure() {
    let mut ctx = GlContext::new();
    let r = Texture::from_res(&mut ctx, &Ok(vec![1u8, 2, 3]), "textures/wall.jpg");
    let e = r.err().unwrap();
    assert!(matches!(e, Error::ImageError { .. }));
    assert_eq!(e.message(), "Failed to load image textures/wall.jpg");
    assert!(!ctx.is_texture_live(1));
}

#[test]
fn texture_release_frees_the_object() {
    let mut ctx = GlContext::new();
    let img = DecodedRgb::new(1, 1, vec![7u8, 8, 9]).unwrap();
    let t = Texture::from_decoded_image(&mut ctx, &img);
    let id = t.id();
    assert_eq!(ctx.current_texture(), id);
    t.release(&mut ctx);
    assert!(!ctx.is_texture_live(id));
    // releasing the bound texture leaves nothing bound
    assert_eq!(ctx.current_texture(), 0);
}

#[test]
fn tex_params_comparisons() {
    let a = TexParams {
        wrap_s: WrapMode::Repeat,
        wrap_t: WrapMode::Repeat,
        min_filter: MinFilter::NearestMipmapLinear,
        mag_filter: MagFilter::Linear,
    };
    assert_ne!(a, upload_params());
    assert_eq!(a, TexParams { ..a });
}
