//! The address scheme of the Fengyun-4 tile service.
//!
//! Its tiles are numbered column after column; an address names the zoom
//! level, then the row, then the column. A capture is published every
//! fifteen minutes.

use vstd::prelude::*;
use crate::text::decimal;
use crate::text::decimal_width2;
use crate::text::push_decimal;
use crate::text::push_decimal_width2;
use crate::text::push_signed_decimal;
use crate::text::signed_decimal;

verus! {

/// The minutes between two captures.
pub const CADENCE_MINUTES: u32 = 15;

/// The minutes after which a capture is published.
pub const SAFETY_LAG_MINUTES: u32 = 15;

/// The address of a tile: the base address, the time as fourteen digits
/// with zero seconds, then zoom level `d` and the two numbers of the tile.
pub open spec fn url_spec(
    url: Seq<char>,
    year: i32,
    month: u8,
    day: u8,
    hour: u8,
    minute: u8,
    d: u32,
    x: u32,
    y: u32,
) -> Seq<char> {
    url + signed_decimal(year as int) + decimal_width2(month as nat) + decimal_width2(day as nat)
        + decimal_width2(hour as nat) + decimal_width2(minute as nat) + "00/jpg/"@ + decimal(
        d as nat,
    ) + "/"@ + decimal(x as nat) + "/"@ + decimal(y as nat) + ".png"@
}

/// The address of one tile. `d` is the zoom level: half the number of tiles
/// along one side of the grid.
pub fn format_url(
    url: &str,
    year: i32,
    month: u8,
    day: u8,
    hour: u8,
    minute: u8,
    d: u32,
    x: u32,
    y: u32,
) -> (r: String)
    ensures
        r@ == url_spec(url@, year, month, day, hour, minute, d, x, y),
{
    let mut out = String::from_str(url);
    push_signed_decimal(&mut out, year);
    push_decimal_width2(&mut out, month as u64);
    push_decimal_width2(&mut out, day as u64);
    push_decimal_width2(&mut out, hour as u64);
    push_decimal_width2(&mut out, minute as u64);
    out.append("00/jpg/");
    push_decimal(&mut out, d as u64);
    out.append("/");
    push_decimal(&mut out, x as u64);
    out.append("/");
    push_decimal(&mut out, y as u64);
    out.append(".png");
    out
}

} // verus!
