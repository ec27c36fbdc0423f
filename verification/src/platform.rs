//! What the platform decides from what it measured: screen size, paths,
//! permissions, and the colours of a bitmap.

use vstd::prelude::*;
use crate::def::DEFAULT_SCREEN_HEIGHT;
use crate::def::DEFAULT_SCREEN_WIDTH;
use crate::raster::TileImage;

verus! {

/// The width of the window where it is not known: that of an upright phone.
pub const DEFAULT_WINDOW_WIDTH: i32 = 1080;

/// The height of the window where it is not known: that of an upright phone.
pub const DEFAULT_WINDOW_HEIGHT: i32 = 1920;

/// The platform version up to which setting the wallpaper needs no grant.
pub const LAST_SDK_WITHOUT_GRANT: i32 = 23;

/// The size of the screen as width and height: the measured one, or the
/// default of 1920 by 1080 where the screen could not be measured.
pub fn get_screen_size(measured: Option<(i32, i32)>) -> (r: (i32, i32))
    ensures
        r == match measured {
            Some(size) => size,
            None => (DEFAULT_SCREEN_WIDTH, DEFAULT_SCREEN_HEIGHT),
        },
{
    match measured {
        Some(size) => size,
        None => (DEFAULT_SCREEN_WIDTH, DEFAULT_SCREEN_HEIGHT),
    }
}

/// The size of the window as width and height: the recorded one, or 1080 by
/// 1920 where a zero says that none was recorded.
pub fn get_window_size(recorded_width: i32, recorded_height: i32) -> (r: (i32, i32))
    ensures
        r == if recorded_width == 0 || recorded_height == 0 {
            (DEFAULT_WINDOW_WIDTH, DEFAULT_WINDOW_HEIGHT)
        } else {
            (recorded_width, recorded_height)
        },
{
    if recorded_width == 0 || recorded_height == 0 {
        (DEFAULT_WINDOW_WIDTH, DEFAULT_WINDOW_HEIGHT)
    } else {
        (recorded_width, recorded_height)
    }
}

/// The path of the wallpaper file in the application's directory.
pub fn get_wallpaper_file_path(app_home_dir: &str) -> (r: String)
    ensures
        r@ == app_home_dir@ + "/wallpaper.png"@,
{
    let mut path = String::from_str(app_home_dir);
    path.append("/wallpaper.png");
    path
}

/// Whether the wallpaper may be set: always up to platform version 23,
/// later only where the permission was granted.
pub fn has_wallpaper_permission(sdk_version: i32, granted: bool) -> (r: bool)
    ensures
        r == (sdk_version <= LAST_SDK_WITHOUT_GRANT || granted),
{
    if sdk_version > LAST_SDK_WITHOUT_GRANT {
        granted
    } else {
        true
    }
}

/// Whether the permission to set the wallpaper is to be requested: after
/// platform version 23, where it was not granted.
pub fn request_wallpaper_permission(sdk_version: i32, granted: bool) -> (r: bool)
    ensures
        r == (sdk_version > LAST_SDK_WITHOUT_GRANT && !granted),
{
    sdk_version > LAST_SDK_WITHOUT_GRANT && !granted
}

/// The colour of a pixel as one signed 32-bit number: alpha, red, green and
/// blue, eight bits each, from the highest byte to the lowest.
pub open spec fn argb_spec(r: u8, g: u8, b: u8, a: u8) -> int {
    let packed = a * 0x100_0000 + r * 0x1_0000 + g * 0x100 + b;
    if packed >= 0x8000_0000 {
        packed - 0x1_0000_0000
    } else {
        packed
    }
}

/// The colour of a pixel as one signed 32-bit number.
pub fn rgba_to_i32(r: u8, g: u8, b: u8, a: u8) -> (packed: i32)
    ensures
        packed == argb_spec(r, g, b, a),
{
    let wide: i64 = (a as i64) * 0x100_0000 + (r as i64) * 0x1_0000 + (g as i64) * 0x100 + (
    b as i64);
    if wide >= 0x8000_0000 {
        (wide - 0x1_0000_0000) as i32
    } else {
        wide as i32
    }
}

/// The colours of an image, pixel after pixel, row after row.
pub fn convert_image_to_vec(image: &TileImage) -> (colors: Vec<i32>)
    requires
        image.wf(),
    ensures
        colors@.len() * 4 == image@.len(),
        forall|p: int|
            0 <= p < colors@.len() ==> #[trigger] colors@[p] == argb_spec(
                image@[4 * p],
                image@[4 * p + 1],
                image@[4 * p + 2],
                image@[4 * p + 3],
            ),
{
    let samples = image.as_raw();
    let pixels: usize = samples.len() / 4;
    assert(image@.len() == (image.spec_width() * image.spec_height()) * 4) by (nonlinear_arith)
        requires
            image@.len() == image.spec_width() * image.spec_height() * 4,
    ;
    let mut colors: Vec<i32> = Vec::new();
    let mut p: usize = 0;
    while p < pixels
        invariant
            p <= pixels,
            pixels * 4 == samples@.len(),
            samples@ == image@,
            samples@.len() <= usize::MAX,
            colors@.len() == p,
            forall|q: int|
                0 <= q < p ==> #[trigger] colors@[q] == argb_spec(
                    image@[4 * q],
                    image@[4 * q + 1],
                    image@[4 * q + 2],
                    image@[4 * q + 3],
                ),
        decreases pixels - p,
    {
        colors.push(
            rgba_to_i32(
                samples[4 * p],
                samples[4 * p + 1],
                samples[4 * p + 2],
                samples[4 * p + 3],
            ),
        );
        p = p + 1;
    }
    colors
}

} // verus!
