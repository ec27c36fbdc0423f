//! Where the mosaic goes on the canvas: crop, uniform scale and placement.
//!
//! Scale factors are exact fractions. A scaled length is the floor of the
//! length times the fraction, so no dimension is ever rounded up.

use vstd::prelude::*;
use crate::raster::drop_alpha;
use crate::raster::Canvas;
use crate::raster::Mosaic;
use crate::raster::PixelGrid;
use crate::scaler::fast_resize_block;
use crate::scaler::resized_spec;

verus! {

/// The share of the canvas height, in percent, that the full disk is scaled to.
pub const FULL_MARGIN_PCT: u32 = 90;

/// The share of the canvas width, in percent, that the top-anchored disk is scaled to.
pub const HALF_MARGIN_PCT: u32 = 95;

/// The share of the canvas, in percent, that a hemisphere may take of each axis.
pub const HEMISPHERE_MARGIN_PCT: u32 = 95;

/// The share of the mosaic's width, in percent, that a hemisphere crop keeps.
pub const HEMISPHERE_CROP_PCT: u32 = 53;

/// How far below the canvas's top, in percent of its height, the top-anchored disk begins.
pub const TOP_OFFSET_PCT: u32 = 5;

/// The last local hour of the morning: up to it the right hemisphere is shown.
pub const LAST_MORNING_HOUR: u32 = 12;

/// How the mosaic is laid out on the canvas.
#[derive(Clone, Copy, Debug, PartialEq, Eq, Structural)]
pub enum LayoutPolicy {
    /// The whole disk, centred horizontally. It is scaled to the margin's
    /// share of the canvas height and centred vertically; or, top-anchored,
    /// to the margin's share of the canvas width, and begins a little below
    /// the top, its lower rows cut off where they leave the canvas.
    FullCentered { scale_margin_pct: u32, top_anchored: bool },
    /// One half of the disk for an upright screen, flush with the edge of
    /// its side, never larger than the margin's share of the canvas.
    HemisphereCropped { hemisphere_margin_pct: u32 },
}

impl LayoutPolicy {
    /// The policy's margin, in percent of the canvas.
    pub open spec fn margin_pct(self) -> u32 {
        match self {
            LayoutPolicy::FullCentered { scale_margin_pct, .. } => scale_margin_pct,
            LayoutPolicy::HemisphereCropped { hemisphere_margin_pct } => hemisphere_margin_pct,
        }
    }
}

/// The geometry of one composition.
#[derive(Clone, Copy, Debug, PartialEq, Eq, Structural)]
pub struct Placement {
    /// The first column of the mosaic that is kept.
    pub crop_left: u32,
    /// The number of columns of the mosaic that are kept; all rows are kept.
    pub crop_width: u32,
    /// The width of the kept part after scaling.
    pub scaled_width: u32,
    /// The height of the kept part after scaling.
    pub scaled_height: u32,
    /// The column of the canvas where the scaled image begins.
    pub left: u32,
    /// The row of the canvas where the scaled image begins.
    pub top: u32,
    /// The number of rows of the scaled image that are pasted.
    pub rows: u32,
}

/// Why a composition failed.
#[derive(Clone, Copy, Debug, PartialEq, Eq, Structural)]
pub enum CompositionError {
    /// The mosaic, or the part of it to show, has no pixels to scale, or the
    /// margin is more than a hundred percent.
    Geometry,
    /// The image could not be scaled.
    Scaling,
}

/// A scale factor as a fraction. The denominator of a usable one is positive.
#[derive(Clone, Copy, Debug, PartialEq, Eq, Structural)]
pub struct Ratio {
    pub num: u64,
    pub den: u64,
}

/// The largest denominator that the planner forms: a hundred times a length.
pub open spec fn max_den() -> int {
    100 * 0xffff_ffffint
}

impl Ratio {
    /// The denominator is positive and within the planner's range.
    pub open spec fn usable(self) -> bool {
        0 < self.den <= max_den()
    }

    /// Whether this factor is at most `other`, both being usable.
    pub open spec fn le(self, other: Ratio) -> bool {
        self.num * other.den <= other.num * self.den
    }

    /// The smaller of two factors; the first where they are equal.
    pub open spec fn least(self, other: Ratio) -> Ratio {
        if self.le(other) {
            self
        } else {
            other
        }
    }

    /// The length `len` scaled by this factor, rounded down.
    pub open spec fn of(self, len: int) -> int {
        (len * self.num) / (self.den as int)
    }

    /// Whether this factor is at most `other`.
    pub fn is_le(self, other: Ratio) -> (r: bool)
        requires
            self.usable(),
            other.usable(),
        ensures
            r == self.le(other),
    {
        assert(0 <= self.num * other.den <= 0xffff_ffff_ffff_ffff * (100 * 0xffff_ffff) && 0
            <= other.num * self.den <= 0xffff_ffff_ffff_ffff * (100 * 0xffff_ffff))
            by (nonlinear_arith)
            requires
                0 <= self.num <= 0xffff_ffff_ffff_ffff,
                0 <= other.num <= 0xffff_ffff_ffff_ffff,
                0 < self.den <= 100 * 0xffff_ffff,
                0 < other.den <= 100 * 0xffff_ffff,
        ;
        (self.num as u128) * (other.den as u128) <= (other.num as u128) * (self.den as u128)
    }

    /// The smaller of two factors; the first where they are equal.
    pub fn min(self, other: Ratio) -> (r: Ratio)
        requires
            self.usable(),
            other.usable(),
        ensures
            r == self.least(other),
            r.usable(),
    {
        if self.is_le(other) {
            self
        } else {
            other
        }
    }

    /// The length `len` scaled by this factor, rounded down.
    pub fn apply(self, len: u32) -> (r: u128)
        requires
            self.usable(),
        ensures
            r == self.of(len as int),
    {
        assert(0 <= len * self.num <= 0xffff_ffff * 0xffff_ffff_ffff_ffff) by (nonlinear_arith)
            requires
                0 <= len <= 0xffff_ffff,
                0 <= self.num <= 0xffff_ffff_ffff_ffff,
        ;
        ((len as u128) * (self.num as u128)) / (self.den as u128)
    }
}

/// A factor that is at most `limit / len` scales `len` to at most `limit`.
pub proof fn lemma_scaled_within(s: Ratio, len: int, limit: int)
    requires
        s.den > 0,
        len > 0,
        0 <= limit,
        s.num * len <= limit * s.den,
    ensures
        0 <= s.of(len) <= limit,
{
    let a = len * s.num;
    let d = s.den as int;
    assert(a == s.num * len) by (nonlinear_arith)
        requires
            a == len * s.num,
    ;
    assert(0 <= a) by (nonlinear_arith)
        requires
            a == len * s.num,
            len > 0,
            s.num >= 0,
    ;
    assert(0 <= a / d <= limit) by (nonlinear_arith)
        requires
            0 <= a <= limit * d,
            d > 0,
    ;
}

/// The order of factors is transitive.
pub proof fn lemma_le_transitive(a: Ratio, b: Ratio, c: Ratio)
    requires
        a.den > 0,
        b.den > 0,
        c.den > 0,
        a.le(b),
        b.le(c),
    ensures
        a.le(c),
{
    let (an, ad, bn, bd, cn, cd) = (
        a.num as int,
        a.den as int,
        b.num as int,
        b.den as int,
        c.num as int,
        c.den as int,
    );
    assert(an * cd <= cn * ad) by (nonlinear_arith)
        requires
            an * bd <= bn * ad,
            bn * cd <= cn * bd,
            ad > 0,
            bd > 0,
            cd > 0,
            an >= 0,
            bn >= 0,
            cn >= 0,
    ;
}

/// The smallest of three factors is at most each of them.
pub proof fn lemma_least_of_three(a: Ratio, b: Ratio, c: Ratio)
    requires
        a.den > 0,
        b.den > 0,
        c.den > 0,
    ensures
        a.least(b.least(c)).le(a),
        a.least(b.least(c)).le(b),
        a.least(b.least(c)).le(c),
        a.least(b.least(c)).den > 0,
{
    let m = b.least(c);
    assert(m.le(b) && m.le(c));
    if a.le(m) {
        lemma_le_transitive(a, m, b);
        lemma_le_transitive(a, m, c);
    }
}

/// The factor for a whole disk: the margin's share of the canvas along the
/// leading axis (the width when top-anchored, else the height), reduced as
/// far as the canvas's width and height ask.
pub open spec fn full_scale(
    mosaic_width: u32,
    mosaic_height: u32,
    canvas_width: u32,
    canvas_height: u32,
    scale_margin_pct: u32,
    top_anchored: bool,
) -> Ratio {
    let leading = if top_anchored {
        Ratio {
            num: (scale_margin_pct * canvas_width) as u64,
            den: (100 * mosaic_width) as u64,
        }
    } else {
        Ratio {
            num: (scale_margin_pct * canvas_height) as u64,
            den: (100 * mosaic_height) as u64,
        }
    };
    leading.least(
        Ratio { num: canvas_width as u64, den: mosaic_width as u64 }.least(
            Ratio { num: canvas_height as u64, den: mosaic_height as u64 },
        ),
    )
}

/// The factor for a hemisphere: no enlargement, and as much reduction as
/// the margin's share of the canvas's width and height asks.
pub open spec fn hemisphere_scale(
    crop_width: u32,
    mosaic_height: u32,
    canvas_width: u32,
    canvas_height: u32,
    hemisphere_margin_pct: u32,
) -> Ratio {
    Ratio { num: 1, den: 1 }.least(
        Ratio {
            num: (hemisphere_margin_pct * canvas_width) as u64,
            den: (100 * crop_width) as u64,
        }.least(
            Ratio {
                num: (hemisphere_margin_pct * canvas_height) as u64,
                den: (100 * mosaic_height) as u64,
            },
        ),
    )
}

/// The number of columns that a hemisphere crop keeps of a mosaic.
pub open spec fn hemisphere_crop_width(mosaic_width: u32) -> int {
    (mosaic_width * HEMISPHERE_CROP_PCT) / 100
}

/// Whether the right hemisphere is shown at the given local hour.
pub open spec fn shows_right_hemisphere(local_hour: u32) -> bool {
    local_hour <= LAST_MORNING_HOUR
}

/// The geometry of a composition, or `None` where the mosaic, or the part
/// of it to show, has no pixels, or the margin is more than the whole canvas.
pub open spec fn plan_spec(
    mosaic_width: u32,
    mosaic_height: u32,
    canvas_width: u32,
    canvas_height: u32,
    policy: LayoutPolicy,
    local_hour: u32,
) -> Option<Placement> {
    if mosaic_width == 0 || mosaic_height == 0 || policy.margin_pct() > 100 {
        None
    } else {
        match policy {
            LayoutPolicy::FullCentered { scale_margin_pct, top_anchored } => {
                let s = full_scale(
                    mosaic_width,
                    mosaic_height,
                    canvas_width,
                    canvas_height,
                    scale_margin_pct,
                    top_anchored,
                );
                let scaled_width = s.of(mosaic_width as int);
                let scaled_height = s.of(mosaic_height as int);
                let top = if top_anchored {
                    (canvas_height * TOP_OFFSET_PCT) / 100
                } else {
                    (canvas_height - scaled_height) / 2
                };
                let rows = if top_anchored && scaled_height > canvas_height - top {
                    canvas_height - top
                } else {
                    scaled_height
                };
                Some(
                    Placement {
                        crop_left: 0,
                        crop_width: mosaic_width,
                        scaled_width: scaled_width as u32,
                        scaled_height: scaled_height as u32,
                        left: ((canvas_width - scaled_width) / 2) as u32,
                        top: top as u32,
                        rows: rows as u32,
                    },
                )
            },
            LayoutPolicy::HemisphereCropped { hemisphere_margin_pct } => {
                let crop_width = hemisphere_crop_width(mosaic_width);
                if crop_width == 0 {
                    None
                } else {
                    let s = hemisphere_scale(
                        crop_width as u32,
                        mosaic_height,
                        canvas_width,
                        canvas_height,
                        hemisphere_margin_pct,
                    );
                    let scaled_width = s.of(crop_width);
                    let scaled_height = s.of(mosaic_height as int);
                    let right = shows_right_hemisphere(local_hour);
                    Some(
                        Placement {
                            crop_left: if right {
                                (mosaic_width - crop_width) as u32
                            } else {
                                0
                            },
                            crop_width: crop_width as u32,
                            scaled_width: scaled_width as u32,
                            scaled_height: scaled_height as u32,
                            left: if right {
                                (canvas_width - scaled_width) as u32
                            } else {
                                0
                            },
                            top: ((canvas_height - scaled_height) / 2) as u32,
                            rows: scaled_height as u32,
                        },
                    )
                }
            },
        }
    }
}

/// The product of two lengths, or of a percentage and a length, fits 64 bits.
proof fn lemma_product_fits(a: int, b: int)
    by (nonlinear_arith)
    requires
        0 <= a <= 0xffff_ffff,
        0 <= b <= 0xffff_ffff,
    ensures
        0 <= a * b <= 0xffff_ffff * 0xffff_ffff,
{
}

/// A factor that is at most `pct * limit / (100 * len)`, with `pct` at most
/// a hundred, is at most `limit / len`.
proof fn lemma_margin_within(s: Ratio, pct: int, len: int, limit: int)
    by (nonlinear_arith)
    requires
        s.den > 0,
        0 <= pct <= 100,
        len > 0,
        0 <= limit,
        s.num * (100 * len) <= (pct * limit) * s.den,
    ensures
        s.num * len <= limit * s.den,
{
}

/// Plans the composition of a mosaic onto a canvas: which columns of the
/// mosaic are kept, to what size they are scaled, and where on the canvas
/// the scaled image goes.
pub fn plan_layout(
    mosaic_width: u32,
    mosaic_height: u32,
    canvas_width: u32,
    canvas_height: u32,
    policy: LayoutPolicy,
    local_hour: u32,
) -> (r: Result<Placement, CompositionError>)
    ensures
        r is Ok <==> plan_spec(
            mosaic_width,
            mosaic_height,
            canvas_width,
            canvas_height,
            policy,
            local_hour,
        ) is Some,
        r matches Ok(p) ==> plan_spec(
            mosaic_width,
            mosaic_height,
            canvas_width,
            canvas_height,
            policy,
            local_hour,
        ) == Some(p) && placement_fits(p, mosaic_width, mosaic_height, canvas_width, canvas_height),
        r matches Err(e) ==> e == CompositionError::Geometry,
{
    if mosaic_width == 0 || mosaic_height == 0 {
        return Err(CompositionError::Geometry);
    }
    proof {
        lemma_product_fits(mosaic_width as int, HEMISPHERE_CROP_PCT as int);
        lemma_product_fits(canvas_height as int, TOP_OFFSET_PCT as int);
        assert(mosaic_width * HEMISPHERE_CROP_PCT == mosaic_width * 53);
        assert(canvas_height * TOP_OFFSET_PCT == canvas_height * 5);
    }
    match policy {
        LayoutPolicy::FullCentered { scale_margin_pct, top_anchored } => {
            if scale_margin_pct > 100 {
                return Err(CompositionError::Geometry);
            }
            proof {
                lemma_product_fits(scale_margin_pct as int, canvas_width as int);
                lemma_product_fits(scale_margin_pct as int, canvas_height as int);
            }
            let leading = if top_anchored {
                Ratio {
                    num: (scale_margin_pct as u64) * (canvas_width as u64),
                    den: 100 * (mosaic_width as u64),
                }
            } else {
                Ratio {
                    num: (scale_margin_pct as u64) * (canvas_height as u64),
                    den: 100 * (mosaic_height as u64),
                }
            };
            let by_width = Ratio { num: canvas_width as u64, den: mosaic_width as u64 };
            let by_height = Ratio { num: canvas_height as u64, den: mosaic_height as u64 };
            let s = leading.min(by_width.min(by_height));
            proof {
                lemma_least_of_three(leading, by_width, by_height);
                lemma_scaled_within(s, mosaic_width as int, canvas_width as int);
                lemma_scaled_within(s, mosaic_height as int, canvas_height as int);
            }
            let scaled_width: u32 = s.apply(mosaic_width) as u32;
            let scaled_height: u32 = s.apply(mosaic_height) as u32;
            let top: u32 = if top_anchored {
                (((canvas_height as u64) * (TOP_OFFSET_PCT as u64)) / 100) as u32
            } else {
                (canvas_height - scaled_height) / 2
            };
            let rows: u32 = if top_anchored && scaled_height > canvas_height - top {
                canvas_height - top
            } else {
                scaled_height
            };
            Ok(
                Placement {
                    crop_left: 0,
                    crop_width: mosaic_width,
                    scaled_width,
                    scaled_height,
                    left: (canvas_width - scaled_width) / 2,
                    top,
                    rows,
                },
            )
        },
        LayoutPolicy::HemisphereCropped { hemisphere_margin_pct } => {
            if hemisphere_margin_pct > 100 {
                return Err(CompositionError::Geometry);
            }
            let crop_width: u32 = (((mosaic_width as u64) * (HEMISPHERE_CROP_PCT as u64))
                / 100) as u32;
            if crop_width == 0 {
                return Err(CompositionError::Geometry);
            }
            proof {
                lemma_product_fits(hemisphere_margin_pct as int, canvas_width as int);
                lemma_product_fits(hemisphere_margin_pct as int, canvas_height as int);
            }
            let unit = Ratio { num: 1, den: 1 };
            let by_width = Ratio {
                num: (hemisphere_margin_pct as u64) * (canvas_width as u64),
                den: 100 * (crop_width as u64),
            };
            let by_height = Ratio {
                num: (hemisphere_margin_pct as u64) * (canvas_height as u64),
                den: 100 * (mosaic_height as u64),
            };
            let s = unit.min(by_width.min(by_height));
            proof {
                lemma_least_of_three(unit, by_width, by_height);
                lemma_margin_within(
                    s,
                    hemisphere_margin_pct as int,
                    crop_width as int,
                    canvas_width as int,
                );
                lemma_margin_within(
                    s,
                    hemisphere_margin_pct as int,
                    mosaic_height as int,
                    canvas_height as int,
                );
                lemma_scaled_within(s, crop_width as int, canvas_width as int);
                lemma_scaled_within(s, mosaic_height as int, canvas_height as int);
            }
            let scaled_width: u32 = s.apply(crop_width) as u32;
            let scaled_height: u32 = s.apply(mosaic_height) as u32;
            let right = local_hour <= LAST_MORNING_HOUR;
            Ok(
                Placement {
                    crop_left: if right {
                        mosaic_width - crop_width
                    } else {
                        0
                    },
                    crop_width,
                    scaled_width,
                    scaled_height,
                    left: if right {
                        canvas_width - scaled_width
                    } else {
                        0
                    },
                    top: (canvas_height - scaled_height) / 2,
                    rows: scaled_height,
                },
            )
        },
    }
}

/// A placement stays inside the mosaic and the canvas: the kept columns are
/// columns of the mosaic, the scaled image is no larger than the canvas, and
/// the rows that are pasted lie on the canvas.
pub open spec fn placement_fits(
    p: Placement,
    mosaic_width: u32,
    mosaic_height: u32,
    canvas_width: u32,
    canvas_height: u32,
) -> bool {
    &&& p.crop_width >= 1
    &&& p.crop_left + p.crop_width <= mosaic_width
    &&& p.scaled_width <= canvas_width
    &&& p.scaled_height <= canvas_height
    &&& p.left + p.scaled_width <= canvas_width
    &&& p.rows <= p.scaled_height
    &&& p.top + p.rows <= canvas_height
}

/// A whole disk is never scaled beyond the canvas, whatever the margin, and
/// it is centred between the canvas's left and right edges.
pub proof fn lemma_full_centered_within_canvas(
    mosaic_width: u32,
    mosaic_height: u32,
    canvas_width: u32,
    canvas_height: u32,
    scale_margin_pct: u32,
    top_anchored: bool,
    local_hour: u32,
)
    ensures
        plan_spec(
            mosaic_width,
            mosaic_height,
            canvas_width,
            canvas_height,
            LayoutPolicy::FullCentered { scale_margin_pct, top_anchored },
            local_hour,
        ) matches Some(p) ==> {
            &&& p.scaled_width <= canvas_width
            &&& p.scaled_height <= canvas_height
            &&& p.left == (canvas_width - p.scaled_width) / 2
            &&& canvas_width - (p.left + p.scaled_width) - p.left <= 1
            &&& p.top + p.rows <= canvas_height
        },
{
    let policy = LayoutPolicy::FullCentered { scale_margin_pct, top_anchored };
    if plan_spec(mosaic_width, mosaic_height, canvas_width, canvas_height, policy, local_hour)
        is Some {
        lemma_plan_scales_uniformly(
            mosaic_width,
            mosaic_height,
            canvas_width,
            canvas_height,
            policy,
            local_hour,
        );
        lemma_product_fits(canvas_height as int, TOP_OFFSET_PCT as int);
        assert(canvas_height * TOP_OFFSET_PCT == canvas_height * 5);
    }
}

/// The factor by which a plan scales both axes of the part of the mosaic
/// that it keeps.
pub open spec fn plan_scale(
    mosaic_width: u32,
    mosaic_height: u32,
    canvas_width: u32,
    canvas_height: u32,
    policy: LayoutPolicy,
) -> Ratio {
    match policy {
        LayoutPolicy::FullCentered { scale_margin_pct, top_anchored } => full_scale(
            mosaic_width,
            mosaic_height,
            canvas_width,
            canvas_height,
            scale_margin_pct,
            top_anchored,
        ),
        LayoutPolicy::HemisphereCropped { hemisphere_margin_pct } => hemisphere_scale(
            hemisphere_crop_width(mosaic_width) as u32,
            mosaic_height,
            canvas_width,
            canvas_height,
            hemisphere_margin_pct,
        ),
    }
}

/// A plan scales width and height by one and the same factor, and the
/// scaled image is no larger than the canvas.
pub proof fn lemma_plan_scales_uniformly(
    mosaic_width: u32,
    mosaic_height: u32,
    canvas_width: u32,
    canvas_height: u32,
    policy: LayoutPolicy,
    local_hour: u32,
)
    ensures
        plan_spec(
            mosaic_width,
            mosaic_height,
            canvas_width,
            canvas_height,
            policy,
            local_hour,
        ) matches Some(p) ==> {
            let s = plan_scale(mosaic_width, mosaic_height, canvas_width, canvas_height, policy);
            &&& s.den > 0
            &&& p.scaled_width == s.of(p.crop_width as int)
            &&& p.scaled_height == s.of(mosaic_height as int)
            &&& p.scaled_width <= canvas_width
            &&& p.scaled_height <= canvas_height
        },
{
    if plan_spec(mosaic_width, mosaic_height, canvas_width, canvas_height, policy, local_hour)
        is Some {
        let margin = policy.margin_pct();
        lemma_product_fits(margin as int, canvas_width as int);
        lemma_product_fits(margin as int, canvas_height as int);
        lemma_product_fits(mosaic_width as int, HEMISPHERE_CROP_PCT as int);
        assert(mosaic_width * HEMISPHERE_CROP_PCT == mosaic_width * 53);
        let s = plan_scale(mosaic_width, mosaic_height, canvas_width, canvas_height, policy);
        match policy {
            LayoutPolicy::FullCentered { scale_margin_pct, top_anchored } => {
                let leading = if top_anchored {
                    Ratio {
                        num: (scale_margin_pct * canvas_width) as u64,
                        den: (100 * mosaic_width) as u64,
                    }
                } else {
                    Ratio {
                        num: (scale_margin_pct * canvas_height) as u64,
                        den: (100 * mosaic_height) as u64,
                    }
                };
                let by_width = Ratio { num: canvas_width as u64, den: mosaic_width as u64 };
                let by_height = Ratio { num: canvas_height as u64, den: mosaic_height as u64 };
                lemma_least_of_three(leading, by_width, by_height);
                lemma_scaled_within(s, mosaic_width as int, canvas_width as int);
                lemma_scaled_within(s, mosaic_height as int, canvas_height as int);
            },
            LayoutPolicy::HemisphereCropped { hemisphere_margin_pct } => {
                let crop_width = hemisphere_crop_width(mosaic_width);
                let unit = Ratio { num: 1, den: 1 };
                let by_width = Ratio {
                    num: (hemisphere_margin_pct * canvas_width) as u64,
                    den: (100 * crop_width) as u64,
                };
                let by_height = Ratio {
                    num: (hemisphere_margin_pct * canvas_height) as u64,
                    den: (100 * mosaic_height) as u64,
                };
                lemma_least_of_three(unit, by_width, by_height);
                lemma_margin_within(s, hemisphere_margin_pct as int, crop_width, canvas_width as int);
                lemma_margin_within(
                    s,
                    hemisphere_margin_pct as int,
                    mosaic_height as int,
                    canvas_height as int,
                );
                lemma_scaled_within(s, crop_width, canvas_width as int);
                lemma_scaled_within(s, mosaic_height as int, canvas_height as int);
            },
        }
    }
}

/// Scaling two lengths by one factor keeps their proportion: the scaled
/// lengths, each rounded down, are less than one pixel off it.
pub proof fn lemma_uniform_scale_keeps_aspect(s: Ratio, width: int, height: int)
    requires
        s.den > 0,
        width > 0,
        height > 0,
    ensures
        -height < s.of(width) * height - s.of(height) * width < width,
{
    let n = s.num as int;
    let d = s.den as int;
    let w = s.of(width);
    let h = s.of(height);
    assert(d * w <= width * n < d * w + d) by (nonlinear_arith)
        requires
            w == (width * n) / d,
            d > 0,
    ;
    assert(d * h <= height * n < d * h + d) by (nonlinear_arith)
        requires
            h == (height * n) / d,
            d > 0,
    ;
    assert(d * (w * height - h * width) < d * width) by (nonlinear_arith)
        requires
            d * w <= width * n,
            height * n < d * h + d,
            width > 0,
            height > 0,
            d > 0,
    ;
    assert(-(d * height) < d * (w * height - h * width)) by (nonlinear_arith)
        requires
            width * n < d * w + d,
            d * h <= height * n,
            width > 0,
            height > 0,
            d > 0,
    ;
    assert(-height < w * height - h * width < width) by (nonlinear_arith)
        requires
            d * (w * height - h * width) < d * width,
            -(d * height) < d * (w * height - h * width),
            d > 0,
    ;
}

/// No plan changes the proportion of what it shows: the scaled width and
/// height are in the proportion of the kept part of the mosaic, less than
/// one pixel off.
pub proof fn lemma_plan_keeps_aspect(
    mosaic_width: u32,
    mosaic_height: u32,
    canvas_width: u32,
    canvas_height: u32,
    policy: LayoutPolicy,
    local_hour: u32,
)
    ensures
        plan_spec(
            mosaic_width,
            mosaic_height,
            canvas_width,
            canvas_height,
            policy,
            local_hour,
        ) matches Some(p) ==> -mosaic_height < p.scaled_width * mosaic_height - p.scaled_height
            * p.crop_width < p.crop_width,
{
    lemma_plan_scales_uniformly(
        mosaic_width,
        mosaic_height,
        canvas_width,
        canvas_height,
        policy,
        local_hour,
    );
    match plan_spec(mosaic_width, mosaic_height, canvas_width, canvas_height, policy, local_hour) {
        Some(p) => {
            let s = plan_scale(mosaic_width, mosaic_height, canvas_width, canvas_height, policy);
            lemma_uniform_scale_keeps_aspect(s, p.crop_width as int, mosaic_height as int);
        },
        None => {},
    }
}

/// Up to the last hour of the morning a hemisphere plan keeps the right
/// part of the mosaic and puts it flush with the canvas's right edge; later
/// it keeps the left part and puts it flush with the left edge. Either part
/// is the crop's share of the mosaic's width.
pub proof fn lemma_hemisphere_by_hour(
    mosaic_width: u32,
    mosaic_height: u32,
    canvas_width: u32,
    canvas_height: u32,
    hemisphere_margin_pct: u32,
    local_hour: u32,
)
    ensures
        plan_spec(
            mosaic_width,
            mosaic_height,
            canvas_width,
            canvas_height,
            LayoutPolicy::HemisphereCropped { hemisphere_margin_pct },
            local_hour,
        ) matches Some(p) ==> {
            &&& p.crop_width == (mosaic_width * 53) / 100
            &&& local_hour <= 12 ==> p.crop_left + p.crop_width == mosaic_width && p.left
                + p.scaled_width == canvas_width
            &&& local_hour > 12 ==> p.crop_left == 0 && p.left == 0
        },
{
    let policy = LayoutPolicy::HemisphereCropped { hemisphere_margin_pct };
    lemma_plan_scales_uniformly(
        mosaic_width,
        mosaic_height,
        canvas_width,
        canvas_height,
        policy,
        local_hour,
    );
    lemma_product_fits(mosaic_width as int, HEMISPHERE_CROP_PCT as int);
    assert(mosaic_width * HEMISPHERE_CROP_PCT == mosaic_width * 53);
}

/// Whether `kept` is the part of the mosaic that plan `p` keeps: the
/// colours, without alpha, of the planned columns over all rows.
pub open spec fn is_kept(kept: &PixelGrid<3>, mosaic: &Mosaic, p: Placement) -> bool {
    &&& kept.wf()
    &&& kept.spec_width() == p.crop_width
    &&& kept.spec_height() == mosaic.spec_height()
    &&& forall|x: int, y: int, c: int| #[trigger]
        kept.holds(x, y, c) ==> kept.sample(x, y, c) == mosaic.sample(x + p.crop_left, y, c)
}

/// Whether `scaled` is the kept part scaled to the plan's size.
pub open spec fn is_scaled(scaled: &PixelGrid<3>, kept: &PixelGrid<3>, p: Placement) -> bool {
    &&& scaled.wf()
    &&& scaled.spec_width() == p.scaled_width
    &&& scaled.spec_height() == p.scaled_height
    &&& scaled@ == resized_spec(
        kept@,
        kept.spec_width(),
        kept.spec_height(),
        p.scaled_width,
        p.scaled_height,
    )
}

/// What a canvas holds after the mosaic was composited onto it by plan `p`:
/// the part of the mosaic that the plan keeps was scaled to the plan's
/// size, and the plan's rows of the scaled image were pasted at the plan's
/// place.
pub open spec fn is_composed(after: &Canvas, before: &Canvas, mosaic: &Mosaic, p: Placement) -> bool {
    exists|kept: PixelGrid<3>, scaled: PixelGrid<3>|
        {
            &&& is_kept(&kept, mosaic, p)
            &&& #[trigger] is_scaled(&scaled, &kept, p)
            &&& after.is_pasted(before, &scaled, p.left as int, p.top as int, p.rows as int)
        }
}

/// Whether the images of plan `p` can be allocated: the scaled image, and
/// the buffer that the filter of the image library works in.
pub open spec fn can_scale(p: Placement) -> bool {
    &&& p.scaled_width * p.scaled_height * 3 <= isize::MAX
    &&& p.crop_width * p.scaled_height * 16 <= isize::MAX
}

/// The part of the mosaic that plan `p` keeps: the colours, without alpha,
/// of the planned columns over all rows; `None` where the mosaic has not
/// all of these columns.
pub fn kept_columns(mosaic: &Mosaic, p: Placement) -> (r: Option<PixelGrid<3>>)
    requires
        mosaic.wf(),
    ensures
        r is Some <==> p.crop_left + p.crop_width <= mosaic.spec_width(),
        r matches Some(kept) ==> is_kept(&kept, mosaic, p),
{
    let colours = drop_alpha(mosaic);
    match colours.crop(p.crop_left, 0, p.crop_width, mosaic.height()) {
        Some(kept) => {
            assert forall|x: int, y: int, c: int| #[trigger] kept.holds(x, y, c) implies kept.sample(
                x,
                y,
                c,
            ) == mosaic.sample(x + p.crop_left, y, c) by {
                assert(colours.holds(x + p.crop_left, y, c));
            }
            Some(kept)
        },
        None => None,
    }
}

/// Pastes the rows of the scaled image that the plan names at the plan's
/// place on the canvas. Fails, and leaves the canvas as it is, where the
/// image is not of the plan's size or the rows do not fit the canvas.
pub fn paste_scaled(canvas: &mut Canvas, scaled: &PixelGrid<3>, p: Placement) -> (r: Result<
    (),
    CompositionError,
>)
    requires
        old(canvas).wf(),
        scaled.wf(),
    ensures
        final(canvas).wf(),
        r is Ok <==> scaled.spec_width() == p.scaled_width && scaled.spec_height()
            == p.scaled_height && old(canvas).fits(
            scaled,
            p.left as int,
            p.top as int,
            p.rows as int,
        ),
        r is Ok ==> final(canvas).is_pasted(
            old(canvas),
            scaled,
            p.left as int,
            p.top as int,
            p.rows as int,
        ),
        r matches Err(e) ==> e == CompositionError::Geometry && *final(canvas) == *old(canvas),
{
    if scaled.width() != p.scaled_width || scaled.height() != p.scaled_height {
        return Err(CompositionError::Geometry);
    }
    if canvas.paste(scaled, p.left, p.top, p.rows) {
        Ok(())
    } else {
        Err(CompositionError::Geometry)
    }
}

/// Composites the mosaic onto the canvas: plans the layout, keeps the
/// planned columns of the mosaic's colours, scales them, and pastes the
/// planned rows. On failure the canvas is left as it was. It succeeds
/// wherever there is a plan whose images can be allocated.
pub fn compose(mosaic: &Mosaic, canvas: &mut Canvas, policy: LayoutPolicy, local_hour: u32) -> (r:
    Result<Placement, CompositionError>)
    requires
        mosaic.wf(),
        old(canvas).wf(),
    ensures
        final(canvas).wf(),
        is_composition(
            r,
            final(canvas),
            old(canvas),
            mosaic,
            plan_spec(
                mosaic.spec_width(),
                mosaic.spec_height(),
                old(canvas).spec_width(),
                old(canvas).spec_height(),
                policy,
                local_hour,
            ),
        ),
{
    let p = match plan_layout(
        mosaic.width(),
        mosaic.height(),
        canvas.width(),
        canvas.height(),
        policy,
        local_hour,
    ) {
        Ok(p) => p,
        Err(e) => {
            return Err(e);
        },
    };
    let kept = match kept_columns(mosaic, p) {
        Some(kept) => kept,
        None => {
            return Err(CompositionError::Scaling);
        },
    };
    let scaled = match fast_resize_block(&kept, p.scaled_width, p.scaled_height) {
        Ok(scaled) => scaled,
        Err(e) => {
            return Err(e);
        },
    };
    match paste_scaled(canvas, &scaled, p) {
        Ok(()) => {
            assert(is_scaled(&scaled, &kept, p));
            assert(is_composed(canvas, old(canvas), mosaic, p));
            Ok(p)
        },
        Err(_) => Err(CompositionError::Scaling),
    }
}

/// Whether `r` and the canvas after it are what a composition by the given
/// plan gives. With a plan, the result is the plan and the canvas holds the
/// composition, or the scaling failed and the canvas is as before; the
/// scaling does not fail where the plan's images can be allocated. Without
/// a plan, the result is `Geometry` and the canvas is as before.
pub open spec fn is_composition(
    r: Result<Placement, CompositionError>,
    after: &Canvas,
    before: &Canvas,
    mosaic: &Mosaic,
    plan: Option<Placement>,
) -> bool {
    match plan {
        Some(p) => match r {
            Ok(done) => done == p && is_composed(after, before, mosaic, p),
            Err(e) => e == CompositionError::Scaling && !can_scale(p) && *after == *before,
        },
        None => r == Err::<Placement, CompositionError>(CompositionError::Geometry) && *after
            == *before,
    }
}

} // verus!
