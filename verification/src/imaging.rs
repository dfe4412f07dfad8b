//! Pixel sizes of uploaded images, read from their headers by the `image` crate.
use vstd::prelude::*;

verus! {

/// The width and height that `image` reads from the header of `bytes`, decoded in the format
/// named by the extension of `file_name`; `None` where the extension names no format the
/// crate supports or the header does not decode in it.
pub uninterp spec fn image_dimensions(bytes: Seq<u8>, file_name: Seq<char>) -> Option<(u32, u32)>;

/// `ImageFormat::from_path(file_name)`, then `ImageReader::with_format` over the bytes and
/// `into_dimensions`: the named size, or `None` where either step fails. This is what
/// `ImageReader::open` followed by `into_dimensions` does on a file holding `bytes`, whose
/// format it also takes from the extension.
#[verifier::external_body]
pub fn image_dimensions_of(bytes: &[u8], file_name: &str) -> (res: Option<(u32, u32)>)
    ensures
        res == image_dimensions(bytes@, file_name@),
{
    let format = image::ImageFormat::from_path(file_name).ok()?;
    let reader = image::ImageReader::with_format(std::io::Cursor::new(bytes), format);
    reader.into_dimensions().ok()
}

} // verus!
