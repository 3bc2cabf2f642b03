//! Image capture: the order of capture paths, where the shell writes, how
//! a frame is encoded, and where images are saved.
use vstd::prelude::*;

use crate::capture::pipeline::join_path_spec;
use crate::text::{dec_nat, format_u64, str_eq};
use crate::window::main_window::Scope;

verus! {

/// The file format an image is saved in.
#[derive(Debug, Clone, Copy, PartialEq, Eq, Structural)]
pub enum ImageEncoding {
    Png,
    /// Saved without the alpha channel.
    Jpeg,
    WebP,
}

pub open spec fn image_encoding_spec(format: Seq<char>) -> ImageEncoding {
    if format == "jpg"@ || format == "jpeg"@ {
        ImageEncoding::Jpeg
    } else if format == "webp"@ {
        ImageEncoding::WebP
    } else {
        ImageEncoding::Png
    }
}

/// "jpg" or "jpeg" is JPEG, "webp" WebP, anything else PNG.
pub fn image_encoding(format: &str) -> (r: ImageEncoding)
    ensures
        r == image_encoding_spec(format@),
{
    if str_eq(format, "jpg") || str_eq(format, "jpeg") {
        ImageEncoding::Jpeg
    } else if str_eq(format, "webp") {
        ImageEncoding::WebP
    } else {
        ImageEncoding::Png
    }
}

/// Whether an RGBA pixel buffer of the given size fits in `data`
/// (`ImageBuffer::from_raw` succeeds exactly when it holds at least four
/// bytes per pixel).
#[verifier::external_body]
fn rgba_buffer_fits(width: u32, height: u32, data: &[u8]) -> (r: bool)
    ensures
        r == (4 * (width as int) * (height as int) <= data@.len()),
{
    image::ImageBuffer::<image::Rgba<u8>, &[u8]>::from_raw(width, height, data).is_some()
}

/// The frame is smaller than its stated size.
#[derive(Debug, Clone, Copy, PartialEq, Eq, Structural)]
pub struct BufferTooSmall;

impl BufferTooSmall {
    pub fn message(&self) -> (r: &'static str)
        ensures
            r@ == "Failed to create image buffer"@,
    {
        "Failed to create image buffer"
    }
}

/// How an RGBA frame of `width` x `height` is saved in `format`: refused
/// when the frame holds fewer than four bytes per pixel.
pub fn encode_rgba(data: &[u8], width: u32, height: u32, format: &str) -> (r: Result<
    ImageEncoding,
    BufferTooSmall,
>)
    ensures
        r == (if 4 * (width as int) * (height as int) <= data@.len() {
            Ok(image_encoding_spec(format@))
        } else {
            Err(BufferTooSmall)
        }),
{
    if !rgba_buffer_fits(width, height, data) {
        return Err(BufferTooSmall);
    }
    Ok(image_encoding(format))
}

/// The RGB pixels that `image` makes of an RGBA frame of the given size
/// (`DynamicImage::to_rgb8`).
pub uninterp spec fn rgb_of_rgba(width: u32, height: u32, data: Seq<u8>) -> Seq<u8>;

/// `image::DynamicImage::to_rgb8` on the frame that `ImageBuffer::from_raw`
/// makes of `data`; `None` when `data` is too small for the frame. What the
/// conversion gives is named by `rgb_of_rgba`, not stated.
#[verifier::external_body]
fn rgba_to_rgb(width: u32, height: u32, data: &[u8]) -> (r: Option<Vec<u8>>)
    ensures
        r is Some <==> 4 * (width as int) * (height as int) <= data@.len(),
        r matches Some(v) ==> v@ == rgb_of_rgba(width, height, data@),
{
    match image::ImageBuffer::<image::Rgba<u8>, Vec<u8>>::from_raw(width, height, data.to_vec()) {
        Some(frame) => Some(image::DynamicImage::ImageRgba8(frame).to_rgb8().into_raw()),
        None => None,
    }
}

/// The pixels a JPEG is written from: the frame without its alpha channel,
/// refused when the frame holds fewer than four bytes per pixel.
pub fn jpeg_pixels(data: &[u8], width: u32, height: u32) -> (r: Result<Vec<u8>, BufferTooSmall>)
    ensures
        match r {
            Ok(v) => 4 * (width as int) * (height as int) <= data@.len() && v@ == rgb_of_rgba(
                width,
                height,
                data@,
            ),
            Err(_) => 4 * (width as int) * (height as int) > data@.len(),
        },
{
    match rgba_to_rgb(width, height, data) {
        Some(v) => Ok(v),
        None => Err(BufferTooSmall),
    }
}

/// The shell writes PNG: any other format goes through a temporary PNG and
/// is re-encoded.
pub fn needs_reencode(format: &str) -> (r: bool)
    ensures
        r == (format@ != "png"@),
{
    !str_eq(format, "png")
}

/// The temporary PNG a shell capture is written to before re-encoding:
/// "mediasnare-shell-" (with "area-" for a region), the process id, ".png".
pub open spec fn shell_temp_name_spec(area: bool, pid: u32) -> Seq<char> {
    "mediasnare-shell-"@ + (if area { "area-"@ } else { Seq::<char>::empty() }) + dec_nat(
        pid as nat,
    ) + ".png"@
}

pub fn shell_temp_name(area: bool, pid: u32) -> (r: String)
    ensures
        r@ == shell_temp_name_spec(area, pid),
{
    let mut r = "mediasnare-shell-".to_owned();
    if area {
        r.append("area-");
    }
    r.append(format_u64(pid as u64).as_str());
    r.append(".png");
    assert(r@ =~= shell_temp_name_spec(area, pid));
    r
}

/// The portal shows its picker for every scope but the full screen.
pub fn portal_interactive(scope: Scope) -> (r: bool)
    ensures
        r == (scope != Scope::Full),
{
    scope != Scope::Full
}

/// What follows a failed shell capture: a user cancel of a full or window
/// capture is passed on; every other failure (and any failure of a region
/// capture) falls back to the next path.
pub fn shell_failure_falls_back(cancelled: bool, area: bool) -> (r: bool)
    ensures
        r == (area || !cancelled),
{
    area || !cancelled
}

/// The path after the shell: the Screenshot portal for full and window
/// captures when it answers, the X11 screen otherwise (always for a region).
#[derive(Debug, Clone, Copy, PartialEq, Eq, Structural)]
pub enum ImageFallback {
    Portal,
    X11,
}

pub fn image_fallback(portal_available: bool, area: bool) -> (r: ImageFallback)
    ensures
        r == (if portal_available && !area { ImageFallback::Portal } else { ImageFallback::X11 }),
{
    if portal_available && !area {
        ImageFallback::Portal
    } else {
        ImageFallback::X11
    }
}

/// The default image directory: "Pictures" in the home directory ("/tmp"
/// without a home).
pub fn pictures_dir(home: Option<&str>) -> (r: String)
    ensures
        r@ == join_path_spec(
            match home {
                Some(h) => h@,
                None => "/tmp"@,
            },
            "Pictures"@,
        ),
{
    let h = match home {
        Some(h) => h,
        None => "/tmp",
    };
    crate::capture::pipeline::join_path(h, "Pictures")
}

} // verus!
