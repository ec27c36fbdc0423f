//! Acquisition: the providers, the dedup key, the tiles of a capture and
//! the coordinator that lets one acquisition run at a time.

use vstd::prelude::*;
use vstd::arithmetic::div_mod::lemma_fundamental_div_mod;
use vstd::arithmetic::div_mod::lemma_fundamental_div_mod_converse;
use crate::mosaic::CoordinateOrder;
use crate::resolver::candidate_at;
use crate::resolver::first_candidate;
use crate::resolver::lemma_candidate_on_cadence;
use crate::resolver::utc_date;
use crate::resolver::utc_from_unix;
use crate::resolver::UtcTime;
use crate::resolver::CALENDAR_MAX;
use crate::resolver::CALENDAR_MIN;
use crate::text::decimal;
use crate::text::decimal_width2;
use crate::text::push_decimal;
use crate::text::push_decimal_width2;
use crate::text::push_signed_decimal;
use crate::text::signed_decimal;

pub mod coordinator;
pub mod fy4a;
pub mod fy4x;
pub mod h8;
pub mod tiles;
pub mod wallpaper;

verus! {

/// The label of a capture: the satellite's name, the grid, and the time of
/// the capture with its minute rounded down to a multiple of the cadence.
pub open spec fn label_spec(
    download_name: Seq<char>,
    d: u32,
    year: i32,
    month: u8,
    day: u8,
    hour: u8,
    minute: u8,
    cadence_minutes: u32,
) -> Seq<char> {
    download_name + "-D"@ + decimal(d as nat) + "-UTC-"@ + signed_decimal(year as int) + "年-"@
        + decimal(month as nat) + "月-"@ + decimal(day as nat) + "日-"@ + decimal(hour as nat)
        + "时-"@ + decimal_width2(((minute as u32 / cadence_minutes) * cadence_minutes) as nat)
        + "分"@
}

/// The provider that a name stands for: Himawari for `h8`, Fengyun-4B for
/// every other name.
pub open spec fn provider_of_name(name: Seq<char>) -> TileProvider {
    if name == "h8"@ {
        TileProvider::H8
    } else {
        TileProvider::Fy4b
    }
}

/// The label of a capture of the provider that `download_name` stands for:
/// its minute is rounded down to that provider's cadence.
pub open spec fn time_str_spec(
    download_name: Seq<char>,
    d: u32,
    year: i32,
    month: u8,
    day: u8,
    hour: u8,
    minute: u8,
) -> Seq<char> {
    label_spec(
        download_name,
        d,
        year,
        month,
        day,
        hour,
        minute,
        provider_of_name(download_name).spec_cadence(),
    )
}

/// The label of a capture, by which two acquisitions of the same capture
/// are told to be the same: every time within one bucket of the cadence
/// gives the same label.
pub fn format_label(
    download_name: &str,
    d: u32,
    year: i32,
    month: u8,
    day: u8,
    hour: u8,
    minute: u8,
    cadence_minutes: u32,
) -> (r: String)
    requires
        cadence_minutes > 0,
    ensures
        r@ == label_spec(download_name@, d, year, month, day, hour, minute, cadence_minutes),
{
    let buckets: u32 = (minute as u32) / cadence_minutes;
    assert(buckets * cadence_minutes <= minute) by (nonlinear_arith)
        requires
            buckets == (minute as u32) / cadence_minutes,
            cadence_minutes > 0,
    ;
    let mut out = String::from_str(download_name);
    out.append("-D");
    push_decimal(&mut out, d as u64);
    out.append("-UTC-");
    push_signed_decimal(&mut out, year);
    out.append("年-");
    push_decimal(&mut out, month as u64);
    out.append("月-");
    push_decimal(&mut out, day as u64);
    out.append("日-");
    push_decimal(&mut out, hour as u64);
    out.append("时-");
    push_decimal_width2(&mut out, (buckets * cadence_minutes) as u64);
    out.append("分");
    out
}

/// The label of a capture of the provider that `download_name` stands for:
/// each bucket of that provider's cadence has a label of its own.
pub fn format_time_str(
    download_name: &str,
    d: u32,
    year: i32,
    month: u8,
    day: u8,
    hour: u8,
    minute: u8,
) -> (r: String)
    ensures
        r@ == time_str_spec(download_name@, d, year, month, day, hour, minute),
{
    let cadence = TileProvider::from_name(download_name).cadence();
    format_label(download_name, d, year, month, day, hour, minute, cadence)
}

/// A satellite's tile service.
#[derive(Clone, Copy, Debug, PartialEq, Eq, Structural)]
pub enum TileProvider {
    /// Himawari.
    H8,
    /// Fengyun-4B.
    Fy4b,
}

impl TileProvider {
    /// The minutes between two captures.
    pub open spec fn spec_cadence(self) -> u32 {
        match self {
            TileProvider::H8 => h8::CADENCE_MINUTES,
            TileProvider::Fy4b => fy4x::CADENCE_MINUTES,
        }
    }

    /// The minutes after which a capture is published.
    pub open spec fn spec_safety_lag(self) -> u32 {
        match self {
            TileProvider::H8 => h8::SAFETY_LAG_MINUTES,
            TileProvider::Fy4b => fy4x::SAFETY_LAG_MINUTES,
        }
    }

    /// The order in which the provider numbers its tiles.
    pub open spec fn spec_coordinate_order(self) -> CoordinateOrder {
        match self {
            TileProvider::H8 => CoordinateOrder::RowMajor,
            TileProvider::Fy4b => CoordinateOrder::ColumnMajor,
        }
    }

    /// The name by which configuration and labels call the provider.
    pub open spec fn spec_name(self) -> Seq<char> {
        match self {
            TileProvider::H8 => "h8"@,
            TileProvider::Fy4b => "fy4b"@,
        }
    }

    /// The address of the tile of the given index in the grid of `d` by `d`
    /// tiles of the capture of time `t`.
    pub open spec fn tile_url_spec(self, base: Seq<char>, t: UtcTime, d: u32, index: int) -> Seq<
        char,
    > {
        let order = self.spec_coordinate_order();
        let column = order.column_of(index, d as int) as u32;
        let row = order.row_of(index, d as int) as u32;
        match self {
            TileProvider::H8 => h8::url_spec(
                base,
                t.year,
                t.month,
                t.day,
                t.hour,
                t.minute,
                d,
                column,
                row,
            ),
            TileProvider::Fy4b => fy4x::url_spec(
                base,
                t.year,
                t.month,
                t.day,
                t.hour,
                t.minute,
                d / 2,
                row,
                column,
            ),
        }
    }

    /// The address that is probed to learn whether the capture of time `t`
    /// is published: that of the first tile of the provider's coarsest grid.
    pub open spec fn probe_url_spec(self, base: Seq<char>, t: UtcTime) -> Seq<char> {
        match self {
            TileProvider::H8 => h8::url_spec(
                base,
                t.year,
                t.month,
                t.day,
                t.hour,
                t.minute,
                1,
                0,
                0,
            ),
            TileProvider::Fy4b => fy4x::url_spec(
                base,
                t.year,
                t.month,
                t.day,
                t.hour,
                t.minute,
                1,
                0,
                0,
            ),
        }
    }

    /// The minutes between two captures.
    #[verifier::when_used_as_spec(spec_cadence)]
    pub fn cadence(self) -> (r: u32)
        ensures
            r == self.spec_cadence(),
            r > 0,
    {
        match self {
            TileProvider::H8 => h8::CADENCE_MINUTES,
            TileProvider::Fy4b => fy4x::CADENCE_MINUTES,
        }
    }

    /// The minutes after which a capture is published.
    #[verifier::when_used_as_spec(spec_safety_lag)]
    pub fn safety_lag(self) -> (r: u32)
        ensures
            r == self.spec_safety_lag(),
    {
        match self {
            TileProvider::H8 => h8::SAFETY_LAG_MINUTES,
            TileProvider::Fy4b => fy4x::SAFETY_LAG_MINUTES,
        }
    }

    /// The order in which the provider numbers its tiles.
    #[verifier::when_used_as_spec(spec_coordinate_order)]
    pub fn coordinate_order(self) -> (r: CoordinateOrder)
        ensures
            r == self.spec_coordinate_order(),
    {
        match self {
            TileProvider::H8 => CoordinateOrder::RowMajor,
            TileProvider::Fy4b => CoordinateOrder::ColumnMajor,
        }
    }

    /// The name by which configuration and labels call the provider.
    pub fn name(self) -> (r: &'static str)
        ensures
            r@ == self.spec_name(),
    {
        match self {
            TileProvider::H8 => "h8",
            TileProvider::Fy4b => "fy4b",
        }
    }

    /// The provider of the given name: Himawari for `h8`, Fengyun-4B for
    /// every other name.
    pub fn from_name(name: &str) -> (r: TileProvider)
        ensures
            r == provider_of_name(name@),
    {
        let given = String::from_str(name);
        let h8 = String::from_str("h8");
        if given == h8 {
            TileProvider::H8
        } else {
            TileProvider::Fy4b
        }
    }

    /// The address of the tile of the given index; `None` where the grid
    /// has no tile of that index.
    pub fn build_tile_url(self, base: &str, t: UtcTime, d: u32, index: u64) -> (r: Option<String>)
        ensures
            r is Some <==> index < d * d,
            r matches Some(url) ==> url@ == self.tile_url_spec(base@, t, d, index as int),
    {
        let at = match self.coordinate_order().position(index, d) {
            Some(at) => at,
            None => {
                return None;
            },
        };
        match self {
            TileProvider::H8 => Some(
                h8::format_url(base, t.year, t.month, t.day, t.hour, t.minute, d, at.x, at.y),
            ),
            TileProvider::Fy4b => Some(
                fy4x::format_url(
                    base,
                    t.year,
                    t.month,
                    t.day,
                    t.hour,
                    t.minute,
                    d / 2,
                    at.y,
                    at.x,
                ),
            ),
        }
    }

    /// The address that is probed to learn whether the capture of time `t`
    /// is published.
    pub fn build_probe_url(self, base: &str, t: UtcTime) -> (r: String)
        ensures
            r@ == self.probe_url_spec(base@, t),
    {
        match self {
            TileProvider::H8 => h8::format_url(
                base,
                t.year,
                t.month,
                t.day,
                t.hour,
                t.minute,
                1,
                0,
                0,
            ),
            TileProvider::Fy4b => fy4x::format_url(
                base,
                t.year,
                t.month,
                t.day,
                t.hour,
                t.minute,
                1,
                0,
                0,
            ),
        }
    }
}

/// The calendar time of a bucket: its date by the calendar, its hour and
/// minute by the second within its day.
pub open spec fn utc_time_spec(unix_seconds: i64) -> UtcTime {
    let date = utc_date(unix_seconds / 86400);
    UtcTime {
        year: date.0 as i32,
        month: date.1 as u8,
        day: date.2 as u8,
        hour: ((unix_seconds % 86400) / 3600) as u8,
        minute: (((unix_seconds % 86400) % 3600) / 60) as u8,
    }
}

/// The time of every candidate of a provider's resolver has a minute that
/// is a multiple of the provider's cadence.
pub proof fn lemma_candidate_minute_on_cadence(
    provider: TileProvider,
    now_unix: i64,
    attempt: int,
    candidate: i64,
)
    requires
        candidate == candidate_at(
            first_candidate(
                now_unix as int,
                provider.spec_cadence() as int,
                provider.spec_safety_lag() as int,
            ),
            provider.spec_cadence() as int,
            attempt,
        ),
    ensures
        utc_time_spec(candidate).minute % (provider.spec_cadence() as u8) == 0,
{
    let cadence = provider.spec_cadence() as int;
    let lag = provider.spec_safety_lag() as int;
    assert((cadence == 10 && lag == 20) || (cadence == 15 && lag == 15));
    lemma_candidate_on_cadence(now_unix as int, cadence, lag, attempt);
    let second: int = (candidate % 86400) as int;
    assert(second % 3600 == candidate % 3600) by {
        lemma_fundamental_div_mod(candidate as int, 86400);
        lemma_fundamental_div_mod(second, 3600);
        lemma_fundamental_div_mod_converse(
            candidate as int,
            3600,
            24 * (candidate / 86400) + second / 3600,
            second % 3600,
        );
    }
    let minute = (second % 3600) / 60;
    assert(0 <= minute < 60);
    assert(utc_time_spec(candidate).minute == minute);
}

/// The label of the capture whose bucket begins at `bucket`, among the
/// captures of the satellite of the given name, for a grid of `d` by `d` tiles.
pub open spec fn bucket_key(satellite_name: Seq<char>, d: u32, bucket: i64) -> Seq<char> {
    time_str_spec(
        satellite_name,
        d,
        utc_time_spec(bucket).year,
        utc_time_spec(bucket).month,
        utc_time_spec(bucket).day,
        utc_time_spec(bucket).hour,
        utc_time_spec(bucket).minute,
    )
}

/// Which tiles to fetch: the grid of one capture.
pub struct TileGridSpec {
    base_url_template: String,
    grid_size: u32,
    timestamp: UtcTime,
}

/// Whether a grid may have `d` tiles along each side.
pub open spec fn is_grid_size(d: u32) -> bool {
    d == 1 || d == 2 || d == 4
}

impl TileGridSpec {
    /// The address that every tile address begins with.
    pub closed spec fn spec_base_url(&self) -> Seq<char> {
        self.base_url_template@
    }

    /// The number of tiles along each side of the grid.
    pub closed spec fn spec_grid_size(&self) -> u32 {
        self.grid_size
    }

    /// The time of the capture.
    pub closed spec fn spec_timestamp(&self) -> UtcTime {
        self.timestamp
    }

    /// The grid has one, two or four tiles along each side.
    pub open spec fn wf(&self) -> bool {
        is_grid_size(self.spec_grid_size())
    }

    /// The grid of `grid_size` by `grid_size` tiles of the capture whose
    /// bucket begins at `bucket`; `None` where the grid size is none of one,
    /// two and four, or the calendar does not reach the bucket.
    pub fn new(base_url: &str, grid_size: u32, bucket: i64) -> (r: Option<TileGridSpec>)
        ensures
            r is Some <==> is_grid_size(grid_size) && CALENDAR_MIN <= bucket <= CALENDAR_MAX,
            r matches Some(grid) ==> {
                &&& grid.wf()
                &&& grid.spec_base_url() == base_url@
                &&& grid.spec_grid_size() == grid_size
                &&& grid.spec_timestamp() == utc_time_spec(bucket)
            },
    {
        if !(grid_size == 1 || grid_size == 2 || grid_size == 4) {
            return None;
        }
        match utc_from_unix(bucket) {
            Some(timestamp) => Some(
                TileGridSpec { base_url_template: String::from_str(base_url), grid_size, timestamp },
            ),
            None => None,
        }
    }

    /// The number of tiles along each side of the grid.
    #[verifier::when_used_as_spec(spec_grid_size)]
    pub fn grid_size(&self) -> (r: u32)
        ensures
            r == self.spec_grid_size(),
    {
        self.grid_size
    }

    /// The time of the capture.
    #[verifier::when_used_as_spec(spec_timestamp)]
    pub fn timestamp(&self) -> (r: UtcTime)
        ensures
            r == self.spec_timestamp(),
    {
        self.timestamp
    }

    /// The addresses of all tiles of the grid, in the order of their indices.
    pub fn tile_urls(&self, provider: TileProvider) -> (urls: Vec<String>)
        requires
            self.wf(),
        ensures
            urls@.len() == self.spec_grid_size() * self.spec_grid_size(),
            forall|k: int|
                0 <= k < urls@.len() ==> (#[trigger] urls@[k])@ == provider.tile_url_spec(
                    self.spec_base_url(),
                    self.spec_timestamp(),
                    self.spec_grid_size(),
                    k,
                ),
    {
        let d = self.grid_size;
        assert(d * d <= 16) by (nonlinear_arith)
            requires
                0 <= d <= 4,
        ;
        let count: u64 = (d as u64) * (d as u64);
        let mut urls: Vec<String> = Vec::new();
        let mut k: u64 = 0;
        while k < count
            invariant
                k <= count,
                count == d * d,
                d == self.spec_grid_size(),
                d <= 4,
                urls@.len() == k,
                forall|j: int|
                    0 <= j < k ==> (#[trigger] urls@[j])@ == provider.tile_url_spec(
                        self.spec_base_url(),
                        self.spec_timestamp(),
                        d,
                        j,
                    ),
            decreases count - k,
        {
            match provider.build_tile_url(self.base_url_template.as_str(), self.timestamp, d, k) {
                Some(url) => {
                    urls.push(url);
                },
                None => {},
            }
            k = k + 1;
        }
        urls
    }

    /// The label of this capture among those of the satellite of the given
    /// name: the name, the grid and the bucket, of the cadence of the
    /// name's provider, that the capture's time lies in.
    pub open spec fn key_spec(&self, satellite_name: Seq<char>) -> Seq<char> {
        time_str_spec(
            satellite_name,
            self.spec_grid_size(),
            self.spec_timestamp().year,
            self.spec_timestamp().month,
            self.spec_timestamp().day,
            self.spec_timestamp().hour,
            self.spec_timestamp().minute,
        )
    }

    /// The label by which this capture is told from others of the satellite.
    pub fn dedup_key(&self, satellite_name: &str) -> (r: String)
        ensures
            r@ == self.key_spec(satellite_name@),
    {
        format_time_str(
            satellite_name,
            self.grid_size,
            self.timestamp.year,
            self.timestamp.month,
            self.timestamp.day,
            self.timestamp.hour,
            self.timestamp.minute,
        )
    }
}

} // verus!
