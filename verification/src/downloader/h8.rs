//! The address scheme of the Himawari tile service.
//!
//! Its tiles are numbered row after row; an address names the column, then
//! the row. A capture is published every ten minutes.

use vstd::prelude::*;
use crate::text::decimal;
use crate::text::decimal_width2;
use crate::text::push_decimal;
use crate::text::push_decimal_width2;
use crate::text::push_signed_decimal;
use crate::text::signed_decimal;

verus! {

/// The minutes between two captures.
pub const CADENCE_MINUTES: u32 = 10;

/// The minutes after which a capture is published.
pub const SAFETY_LAG_MINUTES: u32 = 20;

/// The address of the tile at column `x`, row `y` of the grid of `d` by `d`
/// tiles of the capture of the given time: the base address, the product,
/// the grid, the tile width, the date as a path, then hour, the tens of the
/// minute and three zeros, column and row.
pub open spec fn url_spec(
    url: Seq<char>,
    year: i32,
    month: u8,
    day: u8,
    hour: u8,
    ten_minute: u8,
    d: u32,
    x: u32,
    y: u32,
) -> Seq<char> {
    url + "D531106/"@ + decimal(d as nat) + "d/550/"@ + signed_decimal(year as int) + "/"@
        + decimal_width2(month as nat) + "/"@ + decimal_width2(day as nat) + "/"@ + decimal_width2(
        hour as nat,
    ) + decimal((ten_minute / 10) as nat) + "000_"@ + decimal(x as nat) + "_"@ + decimal(y as nat)
        + ".png"@
}

/// The address of one tile. `ten_minute` is the minute of the capture, of
/// which the address holds the tens.
pub fn format_url(
    url: &str,
    year: i32,
    month: u8,
    day: u8,
    hour: u8,
    ten_minute: u8,
    d: u32,
    x: u32,
    y: u32,
) -> (r: String)
    ensures
        r@ == url_spec(url@, year, month, day, hour, ten_minute, d, x, y),
{
    let mut out = String::from_str(url);
    out.append("D531106/");
    push_decimal(&mut out, d as u64);
    out.append("d/550/");
    push_signed_decimal(&mut out, year);
    out.append("/");
    push_decimal_width2(&mut out, month as u64);
    out.append("/");
    push_decimal_width2(&mut out, day as u64);
    out.append("/");
    push_decimal_width2(&mut out, hour as u64);
    push_decimal(&mut out, (ten_minute / 10) as u64);
    out.append("000_");
    push_decimal(&mut out, x as u64);
    out.append("_");
    push_decimal(&mut out, y as u64);
    out.append(".png");
    out
}

} // verus!
