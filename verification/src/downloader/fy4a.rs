//! The address scheme of the Fengyun-4A tile service, which is that of its
//! successor.

use vstd::prelude::*;
use crate::downloader::fy4x;

verus! {

/// The address of one tile. `d` is the zoom level: half the number of tiles
/// along one side of the grid.
pub fn format_url(
    url: &str,
    year: i32,
    month: u8,
    day: u8,
    hour: u8,
    minute: u8,
    d: u32,
    x: u32,
    y: u32,
) -> (r: String)
    ensures
        r@ == fy4x::url_spec(url@, year, month, day, hour, minute, d, x, y),
{
    fy4x::format_url(url, year, month, day, hour, minute, d, x, y)
}

} // verus!
