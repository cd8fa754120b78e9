//! Image decoding, resizing and lossless WebP re-encoding.
//!
//! The decisions (which size to resize to, whether to resize at all) are
//! made here; reading the image's size, decoding, resampling and encoding
//! are done by the `image` crate.

use vstd::prelude::*;

use image::codecs::webp::WebPEncoder;
use image::imageops::FilterType;
use image::{ExtendedColorType, ImageEncoder, ImageReader};

use crate::error::AppError;

verus! {

/// `side * max / longest`, rounded to the nearest integer, halves up.
pub open spec fn scaled_side(side: int, max: int, longest: int) -> int {
    (2 * (side * max) + longest) / (2 * longest)
}

/// The output dimensions for an image of `width` x `height` capped at
/// `max_dimension`: the longest side is capped at `max_dimension`, the
/// other side scales proportionally (at least 1 pixel). Images whose
/// longest side is already within `max_dimension` are left unchanged.
pub open spec fn target_dims(width: u32, height: u32, max_dimension: u32) -> (u32, u32) {
    if width >= height {
        if width <= max_dimension {
            (width, height)
        } else {
            let h = scaled_side(height as int, max_dimension as int, width as int);
            (max_dimension, if h < 1 { 1u32 } else { h as u32 })
        }
    } else if height <= max_dimension {
        (width, height)
    } else {
        let w = scaled_side(width as int, max_dimension as int, height as int);
        (if w < 1 { 1u32 } else { w as u32 }, max_dimension)
    }
}

proof fn lemma_scaled_side_bounds(side: int, max: int, longest: int)
    requires
        0 <= side <= longest,
        0 <= max < longest,
    ensures
        0 <= scaled_side(side, max, longest) <= max,
        scaled_side(side, max, longest) <= side,
        2 * longest * scaled_side(side, max, longest) <= 2 * (side * max) + longest,
        2 * (side * max) + longest < 2 * longest * (scaled_side(side, max, longest) + 1),
{
    let q = scaled_side(side, max, longest);
    let n = 2 * (side * max) + longest;
    let d = 2 * longest;
    assert(d > 0);
    vstd::arithmetic::div_mod::lemma_fundamental_div_mod(n, d);
    assert(0 <= n % d < d) by {
        vstd::arithmetic::div_mod::lemma_mod_bound(n, d);
    }
    assert(n >= 0) by (nonlinear_arith)
        requires
            side >= 0,
            max >= 0,
            longest > 0,
            n == 2 * (side * max) + longest,
    ;
    assert(q >= 0) by {
        vstd::arithmetic::div_mod::lemma_div_pos_is_pos(n, d);
    }
    assert(side * max <= longest * max) by (nonlinear_arith)
        requires
            0 <= side <= longest,
            max >= 0,
    ;
    assert(side * max <= side * longest) by (nonlinear_arith)
        requires
            0 <= side,
            0 <= max < longest,
    ;
    assert(q <= max) by (nonlinear_arith)
        requires
            n == d * q + n % d,
            n % d >= 0,
            n == 2 * (side * max) + longest,
            d == 2 * longest,
            side * max <= longest * max,
            longest > 0,
    ;
    assert(side * max < longest * side || side == 0) by (nonlinear_arith)
        requires
            0 <= side,
            0 <= max < longest,
    ;
    assert(n < d * (q + 1)) by (nonlinear_arith)
        requires
            n == d * q + n % d,
            n % d < d,
    ;
    assert(q <= side) by (nonlinear_arith)
        requires
            n == d * q + n % d,
            n % d >= 0,
            n == 2 * (side * max) + longest,
            d == 2 * longest,
            side * max <= side * longest,
            side * max < longest * side || side == 0,
            longest > 0,
    ;
}

/// Computes the output dimensions: the longest side is capped at
/// `max_dimension`, the other side scales proportionally, rounded to the
/// nearest pixel and at least 1. Images no larger than `max_dimension` on
/// their longest side are left unchanged.
pub fn target_dimensions(width: u32, height: u32, max_dimension: u32) -> (res: (u32, u32))
    ensures
        res == target_dims(width, height, max_dimension),
{
    if width >= height {
        if width <= max_dimension {
            (width, height)
        } else {
            proof {
                lemma_scaled_side_bounds(height as int, max_dimension as int, width as int);
            }
            assert((height as u128) * (max_dimension as u128) <= 0xFFFF_FFFF * 0xFFFF_FFFF) by (nonlinear_arith)
                requires
                    height <= 0xFFFF_FFFF,
                    max_dimension <= 0xFFFF_FFFF,
            ;
            let num: u128 = 2 * ((height as u128) * (max_dimension as u128)) + (width as u128);
            let den: u128 = 2 * (width as u128);
            let q = num / den;
            assert(q == scaled_side(height as int, max_dimension as int, width as int));
            let new_height: u32 = q as u32;
            (max_dimension, if new_height < 1 { 1 } else { new_height })
        }
    } else if height <= max_dimension {
        (width, height)
    } else {
        proof {
            lemma_scaled_side_bounds(width as int, max_dimension as int, height as int);
        }
        assert((width as u128) * (max_dimension as u128) <= 0xFFFF_FFFF * 0xFFFF_FFFF) by (nonlinear_arith)
            requires
                width <= 0xFFFF_FFFF,
                max_dimension <= 0xFFFF_FFFF,
        ;
        let num: u128 = 2 * ((width as u128) * (max_dimension as u128)) + (height as u128);
        let den: u128 = 2 * (height as u128);
        let q = num / den;
        assert(q == scaled_side(width as int, max_dimension as int, height as int));
        let new_width: u32 = q as u32;
        (if new_width < 1 { 1 } else { new_width }, max_dimension)
    }
}

/// What the target dimensions promise, the size a resize is asked for
/// (the resized image fits within it and may come out a pixel smaller on
/// one side): its longest side never exceeds a positive `max_dimension`;
/// an image already within the cap keeps its size; for an image over the
/// cap the longest side asked for is exactly `max_dimension`; no side ever
/// grows and none becomes empty (for images with no empty side and a
/// positive cap); and the other side is the proportional one, rounded to
/// the nearest pixel, unless that rounds to 0.
pub proof fn law_target_dimensions(width: u32, height: u32, max_dimension: u32)
    ensures
        ({
            let (w, h) = target_dims(width, height, max_dimension);
            &&& max_dimension >= 1 ==> w <= max_dimension && h <= max_dimension
            &&& (width <= max_dimension && height <= max_dimension) ==> (w, h) == (width, height)
            &&& (width > max_dimension || height > max_dimension) ==> (if width >= height {
                w == max_dimension
            } else {
                h == max_dimension
            })
            &&& (width >= 1 && height >= 1) ==> w <= width && h <= height
            &&& (width >= 1 && height >= 1 && max_dimension >= 1) ==> w >= 1 && h >= 1
            &&& (width >= height && width > max_dimension && h > 1) ==> 2 * width * h <= 2 * (height
                * max_dimension) + width && 2 * (height * max_dimension) + width < 2 * width * (h + 1)
            &&& (height > width && height > max_dimension && w > 1) ==> 2 * height * w <= 2 * (width
                * max_dimension) + height && 2 * (width * max_dimension) + height < 2 * height * (w
                + 1)
            &&& (width >= height && width > max_dimension) ==> h >= 1 && 2 * (height * max_dimension)
                + width < 2 * width * (h + 1)
            &&& (height > width && height > max_dimension) ==> w >= 1 && 2 * (width * max_dimension)
                + height < 2 * height * (w + 1)
        }),
{
    if width >= height && width > max_dimension {
        lemma_scaled_side_bounds(height as int, max_dimension as int, width as int);
    } else if height > width && height > max_dimension {
        lemma_scaled_side_bounds(width as int, max_dimension as int, height as int);
    }
}

/// What reading the header of `bytes` gives, as
/// `ImageReader::into_dimensions` does after guessing the format from the
/// content: the image's width and height, or the text of the error.
pub uninterp spec fn image_size(bytes: Seq<u8>) -> Result<(u32, u32), Seq<char>>;

/// What decoding `bytes` (`image::load_from_memory`), resizing the image in
/// its decoded colour type to fit within `nwidth` x `nheight`
/// (`DynamicImage::resize`, Lanczos3), converting it to RGBA8 and encoding
/// it as a lossless WebP gives: the width, height and bytes of the WebP, or
/// the error's text, flagged `true` when decoding failed and `false` when
/// encoding did.
pub uninterp spec fn rendered_webp(bytes: Seq<u8>, nwidth: u32, nheight: u32) -> Result<
    (u32, u32, Seq<u8>),
    (bool, Seq<char>),
>;

/// The plain value of a header read.
pub open spec fn size_view(r: Result<(u32, u32), String>) -> Result<(u32, u32), Seq<char>> {
    match r {
        Ok(d) => Ok(d),
        Err(m) => Err(m@),
    }
}

/// The plain value of a render.
pub open spec fn render_view(r: Result<(u32, u32, Vec<u8>), (bool, String)>) -> Result<
    (u32, u32, Seq<u8>),
    (bool, Seq<char>),
> {
    match r {
        Ok((w, h, v)) => Ok((w, h, v@)),
        Err((decoding, m)) => Err((decoding, m@)),
    }
}

/// `ImageReader::new(Cursor::new(bytes)).with_guessed_format()`, then
/// `into_dimensions`: the size the decoder for the guessed format reads
/// from the header. These are the first steps of `image::load_from_memory`,
/// whose decoder builds its image at that size. The contract claims only
/// that the result depends on the bytes alone; that it is the size of the
/// image `load_from_memory` decodes from the same bytes is left unsaid.
#[verifier::external_body]
fn read_image_size(bytes: &[u8]) -> (res: Result<(u32, u32), String>)
    ensures
        size_view(res) == image_size(bytes@),
{
    match ImageReader::new(std::io::Cursor::new(bytes)).with_guessed_format() {
        Ok(reader) => reader.into_dimensions().map_err(|e| e.to_string()),
        Err(e) => Err(e.to_string()),
    }
}

/// `image::load_from_memory`, `DynamicImage::resize` with
/// `FilterType::Lanczos3`, `into_rgba8`, then
/// `WebPEncoder::new_lossless(..).write_image(.., ExtendedColorType::Rgba8)`
/// into a fresh buffer. The resize keeps the decoded colour type (a 16-bit
/// image is resampled at 16 bits) and returns the image unchanged when it
/// already has the asked size. The contract claims that the result depends
/// on its arguments alone and, as `resize` documents, that the image fits
/// within `nwidth` x `nheight` when both are positive.
#[verifier::external_body]
fn render_webp(bytes: &[u8], nwidth: u32, nheight: u32) -> (res: Result<
    (u32, u32, Vec<u8>),
    (bool, String),
>)
    ensures
        render_view(res) == rendered_webp(bytes@, nwidth, nheight),
        (nwidth >= 1 && nheight >= 1 && res is Ok) ==> res->Ok_0.0 <= nwidth && res->Ok_0.1 <= nheight,
{
    let img = match image::load_from_memory(bytes) {
        Ok(img) => img,
        Err(e) => return Err((true, e.to_string())),
    };
    let rgba = img.resize(nwidth, nheight, FilterType::Lanczos3).into_rgba8();
    let (width, height) = rgba.dimensions();
    let mut buf = Vec::new();
    match WebPEncoder::new_lossless(&mut buf).write_image(&rgba, width, height, ExtendedColorType::Rgba8) {
        Ok(()) => Ok((width, height, buf)),
        Err(e) => Err((false, e.to_string())),
    }
}

/// What processing `bytes` under the cap `max_dimension` gives: the
/// rendering at the target dimensions of the image's size, or a decoding
/// failure with the header's error.
pub open spec fn processed_webp(bytes: Seq<u8>, max_dimension: u32) -> Result<
    (u32, u32, Seq<u8>),
    (bool, Seq<char>),
> {
    match image_size(bytes) {
        Ok((w, h)) => {
            let (tw, th) = target_dims(w, h, max_dimension);
            rendered_webp(bytes, tw, th)
        },
        Err(m) => Err((true, m)),
    }
}

/// An upload is rendered at the size its own width and height call for:
/// when the header reads `w` x `h`, the rendering is asked for exactly
/// `target_dims(w, h, cap)` of that width and height, in that order (so a
/// portrait image is fitted by its height, and an image within the cap is
/// asked for its own size); when the header cannot be read, processing
/// fails as decoding with the header's error.
pub proof fn law_rendered_at_target(bytes: Seq<u8>, max_dimension: u32)
    ensures
        image_size(bytes) is Ok ==> processed_webp(bytes, max_dimension) == rendered_webp(
            bytes,
            target_dims(image_size(bytes)->Ok_0.0, image_size(bytes)->Ok_0.1, max_dimension).0,
            target_dims(image_size(bytes)->Ok_0.0, image_size(bytes)->Ok_0.1, max_dimension).1,
        ),
        image_size(bytes) is Err ==> processed_webp(bytes, max_dimension) == Err::<
            (u32, u32, Seq<u8>),
            (bool, Seq<char>),
        >((true, image_size(bytes)->Err_0)),
{
}

/// The result an upload gets from a rendering: the WebP bytes, or a
/// [`AppError::DecodeError`] / [`AppError::EncodeError`] with the error's
/// text.
pub fn webp_result(rendered: Result<(u32, u32, Vec<u8>), (bool, String)>) -> (res: Result<
    Vec<u8>,
    AppError,
>)
    ensures
        rendered matches Ok((_, _, v)) ==> res == Ok::<Vec<u8>, AppError>(v),
        rendered matches Err((true, m)) ==> res == Err::<Vec<u8>, AppError>(AppError::DecodeError(m)),
        rendered matches Err((false, m)) ==> res == Err::<Vec<u8>, AppError>(AppError::EncodeError(m)),
{
    match rendered {
        Ok((_, _, v)) => Ok(v),
        Err((true, m)) => Err(AppError::DecodeError(m)),
        Err((false, m)) => Err(AppError::EncodeError(m)),
    }
}

/// Decodes the input image, resizes it so its longest side is at most
/// `max_dimension` (preserving aspect ratio, never upscaling), and encodes
/// the result as a lossless WebP.
///
/// `max_dimension` is the effective cap for this upload, computed from the
/// bucket's configured `max_dimension` and any override in the request.
/// The encoded image fits within the cap whenever the cap and the image's
/// sides are positive.
pub fn process_image(bytes: &[u8], max_dimension: u32) -> (res: Result<Vec<u8>, AppError>)
    ensures
        processed_webp(bytes@, max_dimension) is Ok ==> res is Ok && res->Ok_0@ == processed_webp(
            bytes@,
            max_dimension,
        )->Ok_0.2,
        processed_webp(bytes@, max_dimension) is Err && processed_webp(bytes@, max_dimension)->Err_0.0
            ==> (res matches Err(AppError::DecodeError(m)) && m@ == processed_webp(
            bytes@,
            max_dimension,
        )->Err_0.1),
        processed_webp(bytes@, max_dimension) is Err && !processed_webp(bytes@, max_dimension)->Err_0.0
            ==> (res matches Err(AppError::EncodeError(m)) && m@ == processed_webp(
            bytes@,
            max_dimension,
        )->Err_0.1),
        (max_dimension >= 1 && image_size(bytes@) is Ok && image_size(bytes@)->Ok_0.0 >= 1
            && image_size(bytes@)->Ok_0.1 >= 1 && processed_webp(bytes@, max_dimension) is Ok)
            ==> processed_webp(bytes@, max_dimension)->Ok_0.0 <= max_dimension && processed_webp(
            bytes@,
            max_dimension,
        )->Ok_0.1 <= max_dimension,
{
    match read_image_size(bytes) {
        Ok((width, height)) => {
            let (target_width, target_height) = target_dimensions(width, height, max_dimension);
            proof {
                law_target_dimensions(width, height, max_dimension);
            }
            let rendered = render_webp(bytes, target_width, target_height);
            webp_result(rendered)
        },
        Err(message) => Err(AppError::DecodeError(message)),
    }
}

} // verus!
