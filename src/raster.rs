use vstd::prelude::*;

verus! {

/// Number of colour channels of a decoded pixel.
pub const CHANNELS: usize = 3;

/// Side, in pixels, of the square images that samples are brought to.
pub const IMAGE_SIZE: u32 = 32;

/// Number of pixels in one channel plane of a sample.
pub const PLANE_LEN: usize = 1024;

/// Number of bytes in one sample: three planes of `IMAGE_SIZE` by `IMAGE_SIZE`.
pub const SAMPLE_LEN: usize = 3072;

/// A decoded image with three 8-bit channels per pixel, stored row by row,
/// the channels of one pixel next to each other (height, width, channel order).
pub struct RgbImage {
    pub width: u32,
    pub height: u32,
    pub pixels: Vec<u8>,
}

impl RgbImage {
    pub open spec fn wf(&self) -> bool {
        self.pixels@.len() == 3 * (self.width as int) * (self.height as int)
    }
}

/// What `image` makes of the bytes of a file at `path`, decoded in the
/// format that the path's extension names and converted to 8-bit RGB: width,
/// height and pixel bytes, or nothing where the extension names no format of
/// the crate or the bytes do not decode in it.
pub uninterp spec fn decoded_rgb8(path: Seq<char>, bytes: Seq<u8>) -> Option<(u32, u32, Seq<u8>)>;

/// What `image::imageops::resize` with the triangle filter makes of an
/// RGB image of the given width, height and pixels, at `size` by `size`.
pub uninterp spec fn resized_rgb8(width: u32, height: u32, pixels: Seq<u8>, size: u32) -> Seq<u8>;

#[verifier::external_type_specification]
#[verifier::external_body]
pub struct ExImageError(image::ImageError);

/// Relies on `image::ImageFormat::from_path` (the format that the path's
/// extension names, one of the crate's own), `image::load_from_memory_with_format`
/// and `DynamicImage::to_rgb8`: the decoded image, whose raw buffer holds
/// three bytes for each of its `width * height` pixels. With the format given,
/// no detection or decoding hook registered in the process is consulted.
#[verifier::external_body]
fn decode_rgb8(path: &str, bytes: &[u8]) -> (r: Result<RgbImage, image::ImageError>)
    ensures
        match r {
            Ok(img) => decoded_rgb8(path@, bytes@) == Some((img.width, img.height, img.pixels@)) && img.wf(),
            Err(_) => decoded_rgb8(path@, bytes@) is None,
        },
{
    let format = image::ImageFormat::from_path(path)?;
    match image::load_from_memory_with_format(bytes, format) {
        Ok(dynamic) => {
            let rgb = dynamic.to_rgb8();
            let (width, height) = rgb.dimensions();
            Ok(RgbImage { width, height, pixels: rgb.into_raw() })
        },
        Err(e) => Err(e),
    }
}

/// Relies on `image::imageops::resize` with `FilterType::Triangle`: a new
/// `size` by `size` RGB buffer, three bytes per pixel.
#[verifier::external_body]
fn resize_triangle(img: &RgbImage, size: u32) -> (r: Vec<u8>)
    requires
        img.wf(),
        resize_fits(img.width, size),
    ensures
        r@ == resized_rgb8(img.width, img.height, img.pixels@, size),
        r@.len() == 3 * (size as int) * (size as int),
{
    let buffer = image::RgbImage::from_raw(img.width, img.height, img.pixels.clone()).unwrap();
    image::imageops::resize(&buffer, size, size, image::imageops::FilterType::Triangle).into_raw()
}

/// Whether the buffers that resizing an image of the given width to `size`
/// by `size` allocates (four values per pixel at most) can be indexed by `usize`.
pub open spec fn resize_fits(width: u32, size: u32) -> bool {
    &&& 4 * (width as int) * (size as int) <= usize::MAX
    &&& 4 * (size as int) * (size as int) <= usize::MAX
}

/// The pixels of an image brought to `size` by `size`: unchanged where it
/// already has that size, resized with the triangle filter otherwise.
pub open spec fn fitted(width: u32, height: u32, pixels: Seq<u8>, size: u32) -> Seq<u8> {
    if width == size && height == size {
        pixels
    } else {
        resized_rgb8(width, height, pixels, size)
    }
}

/// The pixels that the bytes of the image file at `path` give at `size` by `size`, or nothing
/// where they cannot be decoded, or where the image would have to be resized
/// and resizing it does not fit in this machine's address space.
pub open spec fn prepared(path: Seq<char>, bytes: Seq<u8>, size: u32) -> Option<Seq<u8>> {
    match decoded_rgb8(path, bytes) {
        Some((w, h, p)) => if (w == size && h == size) || resize_fits(w, size) {
            Some(fitted(w, h, p, size))
        } else {
            None
        },
        None => None,
    }
}

/// Brings a decoded image to `size` by `size` pixels. An image that already
/// has that size is handed back byte for byte.
pub fn fit_to_size(img: RgbImage, size: u32) -> (r: Vec<u8>)
    requires
        img.wf(),
        (img.width == size && img.height == size) || resize_fits(img.width, size),
        3 * (size as int) * (size as int) <= usize::MAX,
    ensures
        r@ == fitted(img.width, img.height, img.pixels@, size),
        r@.len() == 3 * (size as int) * (size as int),
        img.width == size && img.height == size ==> r@ == img.pixels@,
{
    if img.width == size && img.height == size {
        img.pixels
    } else {
        resize_triangle(&img, size)
    }
}

/// Decodes the bytes of the image file at `path`, in the format that its
/// extension names, to RGB and brings the image to `size` by `size` pixels;
/// `None` where it cannot be decoded or is too large to resize on this machine.
pub fn load_and_resize_rgb_u8(path: &str, bytes: &[u8], size: u32) -> (r: Option<Vec<u8>>)
    requires
        4 * (size as int) * (size as int) <= usize::MAX,
    ensures
        r matches Some(p) ==> prepared(path@, bytes@, size) == Some(p@),
        r is None <==> prepared(path@, bytes@, size) is None,
        r matches Some(p) ==> p@.len() == 3 * (size as int) * (size as int),
{
    proof {
        assert(3 * (size as int) * (size as int) <= 4 * (size as int) * (size as int)) by (nonlinear_arith);
    }
    match decode_rgb8(path, bytes) {
        Ok(img) => {
            let wide: u128 = img.width as u128 * 4;
            assert((wide as int) * (size as int) <= 0x4_0000_0000 * 0x1_0000_0000) by (nonlinear_arith)
                requires wide <= 0x4_0000_0000, size <= 0xffff_ffff;
            if img.width == size && img.height == size {
                Some(fit_to_size(img, size))
            } else if wide * (size as u128) <= usize::MAX as u128 {
                Some(fit_to_size(img, size))
            } else {
                None
            }
        },
        Err(_) => None,
    }
}

/// The planes of a sample: the byte at `k` of the result is channel
/// `k / PLANE_LEN` of pixel `k % PLANE_LEN` of `hwc`, a 32 by 32 image stored
/// pixel by pixel.
pub open spec fn chw(hwc: Seq<u8>) -> Seq<u8> {
    Seq::new(SAMPLE_LEN as nat, |k: int| hwc[(k % 1024) * 3 + k / 1024])
}

/// Appends the channel planes of a 32 by 32 RGB image to `out`.
pub fn append_chw(out: &mut Vec<u8>, hwc: &Vec<u8>)
    requires
        hwc@.len() == SAMPLE_LEN,
    ensures
        final(out)@ == old(out)@ + chw(hwc@),
{
    let ghost start = out@;
    let mut k: usize = 0;
    while k < SAMPLE_LEN
        invariant
            hwc@.len() == SAMPLE_LEN,
            k <= SAMPLE_LEN,
            out@ == start + chw(hwc@).take(k as int),
        decreases SAMPLE_LEN - k,
    {
        let c = k / PLANE_LEN;
        let p = k % PLANE_LEN;
        out.push(hwc[p * 3 + c]);
        k = k + 1;
        assert(out@ =~= start + chw(hwc@).take(k as int));
    }
    assert(chw(hwc@).take(SAMPLE_LEN as int) =~= chw(hwc@));
}

} // verus!
