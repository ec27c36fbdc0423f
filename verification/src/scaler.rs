//! Scaling of a three-channel image to a new size, done by outside code.

use vstd::prelude::*;
use crate::compositor::CompositionError;
use crate::raster::PixelGrid;

verus! {

/// What `fast_image_resize::Resizer::resize` gives, with its default
/// options, for an image of three 8-bit channels and a destination size: the
/// destination's samples, or `None` where it reports an error.
pub uninterp spec fn convolved(
    src: Seq<u8>,
    src_width: u32,
    src_height: u32,
    dst_width: u32,
    dst_height: u32,
) -> Option<Seq<u8>>;

/// What `image::imageops::resize` gives, with the Lanczos filter of window
/// 3, for an image of three 8-bit channels and a destination size: the
/// destination's samples.
pub uninterp spec fn lanczos_filtered(
    src: Seq<u8>,
    src_width: u32,
    src_height: u32,
    dst_width: u32,
    dst_height: u32,
) -> Seq<u8>;

/// Asks `fast_image_resize::Resizer::resize`, with its default options, for
/// the image scaled to `dst_width` by `dst_height`. The source is handed over
/// as an `ImageRef` of three 8-bit channels, the destination is an `Image`
/// made by `Image::new`; `None` stands for any error. The claims: the
/// result is the scaler's own, a function of the source's samples and the
/// two sizes alone (the scaler's own tests hold every set of processor
/// extensions to one result for such images); a buffer that comes
/// back is the destination's, of three samples for each of its pixels. The
/// source's buffer must be that of its size, and the destination's one that
/// can be allocated.
#[verifier::external_body]
fn resize_with_convolution(
    src: &Vec<u8>,
    src_width: u32,
    src_height: u32,
    dst_width: u32,
    dst_height: u32,
) -> (r: Option<Vec<u8>>)
    requires
        src@.len() == src_width * src_height * 3,
        dst_width * dst_height * 3 <= isize::MAX,
    ensures
        match r {
            Some(samples) => convolved(src@, src_width, src_height, dst_width, dst_height)
                == Some(samples@),
            None => convolved(src@, src_width, src_height, dst_width, dst_height) is None,
        },
        r matches Some(samples) ==> samples@.len() == dst_width * dst_height * 3,
{
    let view = fast_image_resize::images::ImageRef::new(
        src_width,
        src_height,
        src,
        fast_image_resize::PixelType::U8x3,
    ).ok()?;
    let mut out = fast_image_resize::images::Image::new(
        dst_width,
        dst_height,
        fast_image_resize::PixelType::U8x3,
    );
    fast_image_resize::Resizer::new().resize(&view, &mut out, None).ok()?;
    Some(out.into_vec())
}

/// Asks `image::imageops::resize`, with the Lanczos filter of window 3, for
/// the image scaled to `dst_width` by `dst_height`. The claims: for a source
/// buffer of the source's size the function gives an image of the asked
/// size, three samples for each of its pixels, and that image is a function
/// of the source's samples and the two sizes alone. The function allocates
/// a buffer of four 32-bit samples for each pixel of an image as wide as
/// the source and as high as the destination, and one for the destination;
/// both must be buffers that can be allocated.
#[verifier::external_body]
fn resize_with_lanczos(
    src: &Vec<u8>,
    src_width: u32,
    src_height: u32,
    dst_width: u32,
    dst_height: u32,
) -> (r: Option<Vec<u8>>)
    requires
        src@.len() == src_width * src_height * 3,
        src_width * dst_height * 16 <= isize::MAX,
        dst_width * dst_height * 3 <= isize::MAX,
    ensures
        r is Some,
        r matches Some(samples) ==> samples@ == lanczos_filtered(
            src@,
            src_width,
            src_height,
            dst_width,
            dst_height,
        ) && samples@.len() == dst_width * dst_height * 3,
{
    let view = image::ImageBuffer::<image::Rgb<u8>, &[u8]>::from_raw(
        src_width,
        src_height,
        src.as_slice(),
    )?;
    let out = image::imageops::resize(
        &view,
        dst_width,
        dst_height,
        image::imageops::FilterType::Lanczos3,
    );
    Some(out.into_raw())
}

/// Whether an image of the given samples and size can be scaled to `width`
/// by `height`: the scaled image can be allocated, and either the fast
/// scaler gives it or the filter's working buffer can be allocated.
pub open spec fn can_resize(
    src: Seq<u8>,
    src_width: u32,
    src_height: u32,
    width: u32,
    height: u32,
) -> bool {
    &&& width * height * 3 <= isize::MAX
    &&& convolved(src, src_width, src_height, width, height) is Some || src_width * height * 16
        <= isize::MAX
}

/// The samples of an image scaled to `width` by `height`: those of the fast
/// scaler, and where it gives none, those of the filter of the image library.
pub open spec fn resized_spec(
    src: Seq<u8>,
    src_width: u32,
    src_height: u32,
    width: u32,
    height: u32,
) -> Seq<u8> {
    match convolved(src, src_width, src_height, width, height) {
        Some(samples) => samples,
        None => lanczos_filtered(src, src_width, src_height, width, height),
    }
}

/// Whether `a * b * k` is at most the largest signed index of the machine.
fn can_allocate(a: u32, b: u32, k: u32) -> (r: bool)
    ensures
        r <==> a * b * k <= isize::MAX,
{
    assert(0 <= a * b <= 0xffff_ffff * 0xffff_ffff) by (nonlinear_arith)
        requires
            0 <= a <= 0xffff_ffff,
            0 <= b <= 0xffff_ffff,
    ;
    let ab: u64 = (a as u64) * (b as u64);
    assert(0 <= ab * k <= 0xffff_ffff_ffff_ffff * 0xffff_ffff) by (nonlinear_arith)
        requires
            0 <= ab <= 0xffff_ffff_ffff_ffff,
            0 <= k <= 0xffff_ffff,
    ;
    (ab as u128) * (k as u128) <= isize::MAX as u128
}

/// Scales `src` to `width` by `height`: by the fast scaler, and where that
/// one gives no image, by the filter of the image library. Fails where the
/// scaled image, or the buffer that the filter works in, cannot be allocated.
pub fn fast_resize_block(src: &PixelGrid<3>, width: u32, height: u32) -> (r: Result<
    PixelGrid<3>,
    CompositionError,
>)
    requires
        src.wf(),
    ensures
        r is Ok <==> can_resize(src@, src.spec_width(), src.spec_height(), width, height),
        r matches Ok(scaled) ==> {
            &&& scaled.wf()
            &&& scaled.spec_width() == width
            &&& scaled.spec_height() == height
            &&& scaled@ == resized_spec(src@, src.spec_width(), src.spec_height(), width, height)
        },
        r matches Err(e) ==> e == CompositionError::Scaling,
{
    if !can_allocate(width, height, 3) {
        return Err(CompositionError::Scaling);
    }
    let fast = resize_with_convolution(src.as_raw(), src.width(), src.height(), width, height);
    match grid_of(fast, width, height) {
        Some(scaled) => Ok(scaled),
        None => {
            if !can_allocate(src.width(), height, 16) {
                return Err(CompositionError::Scaling);
            }
            let slow = resize_with_lanczos(src.as_raw(), src.width(), src.height(), width, height);
            match grid_of(slow, width, height) {
                Some(scaled) => Ok(scaled),
                None => Err(CompositionError::Scaling),
            }
        },
    }
}

/// The grid of the given size over a buffer that a scaler gave: `None` where
/// it gave none, or one whose length is not that of such a grid.
pub fn grid_of(buffer: Option<Vec<u8>>, width: u32, height: u32) -> (r: Option<PixelGrid<3>>)
    ensures
        r is Some <==> (buffer matches Some(b) && b@.len() == width * height * 3),
        r matches Some(g) ==> {
            &&& g.wf()
            &&& g.spec_width() == width
            &&& g.spec_height() == height
            &&& g@ == buffer->0@
        },
{
    match buffer {
        Some(b) => PixelGrid::<3>::from_raw(width, height, b),
        None => None,
    }
}

} // verus!
