//! The two image-codec operations the resize pipeline needs, behind
//! trusted wrappers over the `image` crate. Both results are functions of
//! the arguments alone, so each is given a name that the callers'
//! contracts use; nothing more is assumed of the codecs.

use vstd::prelude::*;

verus! {

/// The dimensions of the image encoded in `bytes`, or `None` when the
/// bytes do not decode. Decoding is deterministic in the bytes.
pub uninterp spec fn image_size_of(bytes: Seq<u8>) -> Option<(u32, u32)>;

/// The PNG encoding of the image in `bytes`, resampled to exactly `w` by
/// `h` with the Lanczos filter, or `None` when the bytes do not decode or
/// the encoder refuses. Deterministic in the arguments.
pub uninterp spec fn resized_png_of(bytes: Seq<u8>, w: u32, h: u32) -> Option<Seq<u8>>;

/// Relies on image::load_from_memory and DynamicImage::width/height:
/// decoding depends on the bytes alone, and yields the image's
/// dimensions.
#[verifier::external_body]
pub fn image_dims(bytes: &Vec<u8>) -> (r: Option<(u32, u32)>)
    ensures
        r == image_size_of(bytes@),
{
    match image::load_from_memory(bytes.as_slice()) {
        Ok(img) => Some((img.width(), img.height())),
        Err(_) => None,
    }
}

/// Relies on image::load_from_memory, DynamicImage::resize_exact with the
/// Lanczos3 filter, and DynamicImage::write_to with the PNG format: each
/// depends on the bytes and the target size alone. The empty target is
/// kept out because the resampler is not documented for it.
#[verifier::external_body]
pub fn resize_to_png(bytes: &Vec<u8>, w: u32, h: u32) -> (r: Option<Vec<u8>>)
    requires
        w > 0,
        h > 0,
    ensures
        match r {
            Some(png) => resized_png_of(bytes@, w, h) == Some(png@),
            None => resized_png_of(bytes@, w, h) is None,
        },
{
    let img = match image::load_from_memory(bytes.as_slice()) {
        Ok(img) => img,
        Err(_) => return None,
    };
    let resized = img.resize_exact(w, h, image::imageops::FilterType::Lanczos3);
    let mut out = std::io::Cursor::new(Vec::new());
    match resized.write_to(&mut out, image::ImageFormat::Png) {
        Ok(()) => Some(out.into_inner()),
        Err(_) => None,
    }
}

} // verus!
