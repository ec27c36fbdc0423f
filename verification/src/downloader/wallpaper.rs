//! From the mosaic to the wallpaper: the grid to ask for, the layout for
//! the screen, and the composition onto a black canvas of the screen's size.

use vstd::prelude::*;
use crate::clock::local_hour;
use crate::compositor::can_scale;
use crate::compositor::compose;
use crate::compositor::is_composed;
use crate::compositor::plan_spec;
use crate::compositor::CompositionError;
use crate::compositor::LayoutPolicy;
use crate::compositor::Placement;
use crate::compositor::FULL_MARGIN_PCT;
use crate::compositor::HALF_MARGIN_PCT;
use crate::compositor::HEMISPHERE_MARGIN_PCT;
use crate::raster::Canvas;
use crate::raster::Mosaic;

verus! {

/// The display type of the configuration that shows half of the disk.
pub const DISPLAY_TYPE_HALF: u32 = 2;

/// The screen height above which the finer grid is fetched.
pub const FINE_GRID_ABOVE_HEIGHT: u32 = 1080;

/// Whether a display type of the configuration asks for half of the disk.
pub fn is_half(display_type: u32) -> (half: bool)
    ensures
        half == (display_type == DISPLAY_TYPE_HALF),
{
    display_type == DISPLAY_TYPE_HALF
}

/// The number of tiles along each side of the grid to fetch: four for a
/// screen higher than 1080 pixels or for half of the disk, else two.
pub open spec fn grid_size_spec(height: u32, half: bool) -> u32 {
    if height > FINE_GRID_ABOVE_HEIGHT || half {
        4
    } else {
        2
    }
}

/// The number of tiles along each side of the grid to fetch.
pub fn grid_size_for(height: u32, half: bool) -> (d: u32)
    ensures
        d == grid_size_spec(height, half),
{
    if height > FINE_GRID_ABOVE_HEIGHT || half {
        4
    } else {
        2
    }
}

/// The layout for a screen: the whole disk, centred, where the whole disk
/// is asked for; where half is asked for, the top-anchored disk on a screen
/// that is wider than high, and a hemisphere on any other.
pub open spec fn policy_spec(width: u32, height: u32, half: bool) -> LayoutPolicy {
    if !half {
        LayoutPolicy::FullCentered { scale_margin_pct: FULL_MARGIN_PCT, top_anchored: false }
    } else if height < width {
        LayoutPolicy::FullCentered { scale_margin_pct: HALF_MARGIN_PCT, top_anchored: true }
    } else {
        LayoutPolicy::HemisphereCropped { hemisphere_margin_pct: HEMISPHERE_MARGIN_PCT }
    }
}

/// The layout for a screen of the given size.
pub fn select_policy(width: u32, height: u32, half: bool) -> (policy: LayoutPolicy)
    ensures
        policy == policy_spec(width, height, half),
{
    if !half {
        LayoutPolicy::FullCentered { scale_margin_pct: FULL_MARGIN_PCT, top_anchored: false }
    } else if height < width {
        LayoutPolicy::FullCentered { scale_margin_pct: HALF_MARGIN_PCT, top_anchored: true }
    } else {
        LayoutPolicy::HemisphereCropped { hemisphere_margin_pct: HEMISPHERE_MARGIN_PCT }
    }
}

/// What a wallpaper is: a canvas of the screen's size that was black before
/// the mosaic was composited onto it by plan `p`.
pub open spec fn is_wallpaper(
    canvas: &Canvas,
    width: u32,
    height: u32,
    mosaic: &Mosaic,
    p: Placement,
) -> bool {
    &&& canvas.wf()
    &&& canvas.spec_width() == width
    &&& canvas.spec_height() == height
    &&& exists|black: Canvas|
        {
            &&& black.wf()
            &&& black.is_blank()
            &&& #[trigger] is_composed(canvas, &black, mosaic, p)
        }
}

/// Whether `r` is what `set_wallpaper` gives. A canvas larger than the
/// machine can index, or a mosaic without a plan, gives `Geometry`. With a
/// plan the result is the wallpaper by that plan, or `Scaling`; the scaling
/// does not fail where the plan's images can be allocated.
pub open spec fn is_set_wallpaper(
    r: Result<Canvas, CompositionError>,
    mosaic: &Mosaic,
    width: u32,
    height: u32,
    half: bool,
    local_hour: u32,
) -> bool {
    if width * height * 3 > usize::MAX {
        r == Err::<Canvas, CompositionError>(CompositionError::Geometry)
    } else {
        match plan_spec(
            mosaic.spec_width(),
            mosaic.spec_height(),
            width,
            height,
            policy_spec(width, height, half),
            local_hour,
        ) {
            Some(p) => match r {
                Ok(canvas) => is_wallpaper(&canvas, width, height, mosaic, p),
                Err(e) => e == CompositionError::Scaling && !can_scale(p),
            },
            None => r == Err::<Canvas, CompositionError>(CompositionError::Geometry),
        }
    }
}

/// The wallpaper for a screen of `width` by `height` pixels at the given
/// local hour: a black canvas onto which the mosaic is composited by the
/// layout for that screen. Fails where the layout has no geometry, the
/// canvas is larger than the machine can index, or the plan's images
/// cannot be allocated.
pub fn set_wallpaper(mosaic: &Mosaic, width: u32, height: u32, half: bool, local_hour: u32) -> (r:
    Result<Canvas, CompositionError>)
    requires
        mosaic.wf(),
    ensures
        is_set_wallpaper(r, mosaic, width, height, half, local_hour),
{
    let mut canvas = match Canvas::new(width, height) {
        Some(canvas) => canvas,
        None => {
            return Err(CompositionError::Geometry);
        },
    };
    let ghost black = canvas;
    match compose(mosaic, &mut canvas, select_policy(width, height, half), local_hour) {
        Ok(p) => {
            assert(is_composed(&canvas, &black, mosaic, p));
            Ok(canvas)
        },
        Err(e) => Err(e),
    }
}

/// The wallpaper for a screen of `width` by `height` pixels at the hour
/// that the local clock shows.
pub fn set_wallpaper_now(mosaic: &Mosaic, width: u32, height: u32, half: bool) -> (r: Result<
    Canvas,
    CompositionError,
>)
    requires
        mosaic.wf(),
    ensures
        exists|hour: u32|
            hour <= 23 && #[trigger] is_set_wallpaper(r, mosaic, width, height, half, hour),
{
    let hour = local_hour();
    let r = set_wallpaper(mosaic, width, height, half, hour);
    assert(is_set_wallpaper(r, mosaic, width, height, half, hour));
    r
}

} // verus!
