//! The acquisition coordinator: one acquisition at a time, and none for a
//! capture that is already shown.
//!
//! The coordinator holds what outlives an acquisition: whether one is
//! running, and the label of the capture that the last successful one
//! showed. The caller, who fetches and writes, tells it when an acquisition
//! begins and how it ends.

use vstd::prelude::*;
use crate::clock::local_hour;
use crate::compositor::CompositionError;
use crate::downloader::bucket_key;
use crate::downloader::provider_of_name;
use crate::downloader::tiles::download;
use crate::downloader::tiles::is_download;
use crate::downloader::tiles::DownloadError;
use crate::downloader::tiles::TileError;
use crate::downloader::tiles::TileReply;
use crate::downloader::utc_time_spec;
use crate::downloader::wallpaper::grid_size_for;
use crate::downloader::wallpaper::grid_size_spec;
use crate::downloader::wallpaper::is_set_wallpaper;
use crate::downloader::wallpaper::set_wallpaper;
use crate::downloader::TileGridSpec;
use crate::downloader::TileProvider;
use crate::mosaic::CoordinateOrder;
use crate::raster::Canvas;
use crate::raster::Mosaic;
use crate::resolver::ResolverState;
use crate::resolver::CALENDAR_MAX;
use crate::resolver::CALENDAR_MIN;

verus! {

/// The state shared by the acquisitions of one satellite.
pub struct Coordinator {
    name: String,
    downloading: bool,
    last_key: String,
}

/// What a coordinator holds.
pub struct CoordinatorView {
    /// The name of the satellite whose captures are acquired.
    pub name: Seq<char>,
    /// Whether an acquisition is running.
    pub downloading: bool,
    /// The label of the capture that the last successful acquisition showed.
    pub last_key: Seq<char>,
}

/// What a trigger is answered with.
#[derive(Clone, Copy, Debug, PartialEq, Eq, Structural)]
pub enum Trigger {
    /// An acquisition is running: this one is not to begin.
    AlreadyRunning,
    /// No acquisition was running: this one has begun.
    Started,
}

/// What to do once the capture is resolved.
#[derive(Clone, Copy, Debug, PartialEq, Eq, Structural)]
pub enum Decision {
    /// The capture is the one that is shown: nothing is fetched, composed or written.
    Skip,
    /// The capture is new: fetch it.
    Fetch,
}

/// Why an acquisition failed.
#[derive(Clone, Copy, Debug, PartialEq, Eq, Structural)]
pub enum AcquisitionError {
    /// No probe found a published capture.
    TimestampResolutionFailed,
    /// The tile of the given index could not be had.
    TileFetchFailed { index: usize, cause: TileError },
    /// The tiles do not make a grid.
    AssemblyError,
    /// The mosaic could not be laid out or scaled.
    CompositionError { failure: CompositionError },
    /// The wallpaper could not be written or applied.
    PersistenceError,
}

impl View for Coordinator {
    type V = CoordinatorView;

    closed spec fn view(&self) -> CoordinatorView {
        CoordinatorView {
            name: self.name@,
            downloading: self.downloading,
            last_key: self.last_key@,
        }
    }
}

impl CoordinatorView {
    /// The provider that the satellite's name stands for.
    pub open spec fn provider(self) -> TileProvider {
        provider_of_name(self.name)
    }

    /// The answer to a trigger, and the state after it.
    pub open spec fn begin(self) -> (CoordinatorView, Trigger) {
        if self.downloading {
            (self, Trigger::AlreadyRunning)
        } else {
            (CoordinatorView { downloading: true, ..self }, Trigger::Started)
        }
    }

    /// Whether the capture of label `key` is to be fetched.
    pub open spec fn decide(self, key: Seq<char>) -> Decision {
        if key == self.last_key {
            Decision::Skip
        } else {
            Decision::Fetch
        }
    }

    /// The state after an acquisition ended: none is running; where it
    /// showed a new capture, that capture's label is kept.
    pub open spec fn finish(self, shown: Option<Seq<char>>) -> CoordinatorView {
        CoordinatorView {
            downloading: false,
            last_key: match shown {
                Some(key) => key,
                None => self.last_key,
            },
            ..self
        }
    }
}

impl Coordinator {
    /// A coordinator for the satellite of the given name, with the label of
    /// the capture that is shown, as it was kept from the last run; no
    /// acquisition is running.
    pub fn new(satellite_name: &str, last_key: &str) -> (r: Coordinator)
        ensures
            r@ == (CoordinatorView {
                name: satellite_name@,
                downloading: false,
                last_key: last_key@,
            }),
    {
        Coordinator {
            name: String::from_str(satellite_name),
            downloading: false,
            last_key: String::from_str(last_key),
        }
    }

    /// The name of the satellite whose captures are acquired.
    pub fn name(&self) -> (r: &str)
        ensures
            r@ == self@.name,
    {
        self.name.as_str()
    }

    /// The provider that the satellite's name stands for.
    pub fn provider(&self) -> (r: TileProvider)
        ensures
            r == self@.provider(),
    {
        TileProvider::from_name(self.name.as_str())
    }

    /// The label of the capture that the last successful acquisition showed.
    pub fn last_key(&self) -> (r: &str)
        ensures
            r@ == self@.last_key,
    {
        self.last_key.as_str()
    }

    /// Answers a trigger. Where an acquisition is running, nothing changes
    /// and the trigger is told so; else the acquisition begins.
    pub fn begin(&mut self) -> (r: Trigger)
        ensures
            (final(self)@, r) == old(self)@.begin(),
    {
        if self.downloading {
            Trigger::AlreadyRunning
        } else {
            self.downloading = true;
            Trigger::Started
        }
    }

    /// Decides whether the resolved capture, of label `key`, is to be
    /// fetched: not where it is the capture that is shown.
    pub fn decide(&self, key: &str) -> (r: Decision)
        ensures
            r == self@.decide(key@),
    {
        let resolved = String::from_str(key);
        if resolved == self.last_key {
            Decision::Skip
        } else {
            Decision::Fetch
        }
    }

    /// Ends the acquisition, however it went: none is running afterwards.
    /// Where it showed a new capture, `shown` is that capture's label.
    pub fn finish(&mut self, shown: Option<String>)
        ensures
            final(self)@ == old(self)@.finish(
                match shown {
                    Some(key) => Some(key@),
                    None => None,
                },
            ),
    {
        self.downloading = false;
        match shown {
            Some(key) => {
                self.last_key = key;
            },
            None => {},
        }
    }
}

/// The failure of an acquisition whose tiles could not be had or assembled.
pub open spec fn fetch_failure(e: DownloadError) -> AcquisitionError {
    match e {
        DownloadError::TileFetchFailed { index, cause } => AcquisitionError::TileFetchFailed {
            index,
            cause,
        },
        DownloadError::AssemblyError => AcquisitionError::AssemblyError,
    }
}

/// Whether `r` is what `produce` gives for a fetch: the failure of the
/// fetch; or, for a fetched mosaic, what `set_wallpaper` gives for it, its
/// failure being one of composition.
pub open spec fn is_produced(
    r: Result<Canvas, AcquisitionError>,
    fetched: Result<Mosaic, DownloadError>,
    width: u32,
    height: u32,
    half: bool,
    local_hour: u32,
) -> bool {
    match fetched {
        Err(e) => r == Err::<Canvas, AcquisitionError>(fetch_failure(e)),
        Ok(mosaic) => match r {
            Ok(canvas) => is_set_wallpaper(
                Ok::<Canvas, CompositionError>(canvas),
                &mosaic,
                width,
                height,
                half,
                local_hour,
            ),
            Err(e) => e matches AcquisitionError::CompositionError { failure } && is_set_wallpaper(
                Err::<Canvas, CompositionError>(failure),
                &mosaic,
                width,
                height,
                half,
                local_hour,
            ),
        },
    }
}

/// The wallpaper of a fetched mosaic, or the failure of the stage that failed.
pub fn produce(
    fetched: Result<Mosaic, DownloadError>,
    width: u32,
    height: u32,
    half: bool,
    local_hour: u32,
) -> (r: Result<Canvas, AcquisitionError>)
    requires
        fetched matches Ok(mosaic) ==> mosaic.wf(),
    ensures
        is_produced(r, fetched, width, height, half, local_hour),
{
    match fetched {
        Ok(mosaic) => match set_wallpaper(&mosaic, width, height, half, local_hour) {
            Ok(canvas) => Ok(canvas),
            Err(failure) => Err(AcquisitionError::CompositionError { failure }),
        },
        Err(DownloadError::TileFetchFailed { index, cause }) => Err(
            AcquisitionError::TileFetchFailed { index, cause },
        ),
        Err(DownloadError::AssemblyError) => Err(AcquisitionError::AssemblyError),
    }
}

/// What the end of a resolution means for the acquisition.
pub enum Resolution {
    /// A capture was confirmed that is not the one shown: fetch it.
    Fetch,
    /// The confirmed capture is the one shown: the acquisition ends.
    Skip,
    /// No capture of the calendar was confirmed: the acquisition fails.
    Failed,
}

impl CoordinatorView {
    /// What the end of a resolution means: a confirmed bucket of the
    /// calendar is fetched unless its label, for the grid that the screen
    /// asks for, is the label that is kept; anything else fails.
    pub open spec fn resolve(self, state: ResolverState, height: u32, half: bool) -> Resolution {
        match state {
            ResolverState::Resolved { bucket } => if CALENDAR_MIN <= bucket <= CALENDAR_MAX {
                if bucket_key(self.name, grid_size_spec(height, half), bucket)
                    == self.last_key {
                    Resolution::Skip
                } else {
                    Resolution::Fetch
                }
            } else {
                Resolution::Failed
            },
            _ => Resolution::Failed,
        }
    }
}

/// Whether `r` is what completing an acquisition gives: what `produce`
/// gives for the download of the replies.
pub open spec fn is_completed(
    r: Result<Canvas, AcquisitionError>,
    replies: Seq<TileReply>,
    d: u32,
    order: CoordinateOrder,
    width: u32,
    height: u32,
    half: bool,
    local_hour: u32,
) -> bool {
    exists|fetched: Result<Mosaic, DownloadError>|
        is_download(fetched, replies, d as int, order) && #[trigger] is_produced(
            r,
            fetched,
            width,
            height,
            half,
            local_hour,
        )
}

impl Coordinator {
    /// Takes the end of the resolution. Where a probe confirmed a capture
    /// that is not the one shown, its grid is handed out to be fetched and
    /// the acquisition goes on. Where the capture is the one shown, or none
    /// was confirmed, the acquisition ends here.
    pub fn on_resolved(&mut self, state: ResolverState, base_url: &str, height: u32, half: bool) -> (r:
        Result<Option<TileGridSpec>, AcquisitionError>)
        ensures
            final(self)@.name == old(self)@.name,
            final(self)@.last_key == old(self)@.last_key,
            match old(self)@.resolve(state, height, half) {
                Resolution::Fetch => {
                    &&& r matches Ok(Some(grid))
                    &&& state matches ResolverState::Resolved { bucket }
                    &&& grid.wf()
                    &&& grid.spec_base_url() == base_url@
                    &&& grid.spec_grid_size() == grid_size_spec(height, half)
                    &&& grid.spec_timestamp() == utc_time_spec(bucket)
                    &&& grid.key_spec(old(self)@.name) == bucket_key(
                        old(self)@.name,
                        grid_size_spec(height, half),
                        bucket,
                    )
                    &&& final(self)@.downloading == old(self)@.downloading
                },
                Resolution::Skip => r matches Ok(None) && !final(self)@.downloading,
                Resolution::Failed => r matches Err(AcquisitionError::TimestampResolutionFailed)
                    && !final(self)@.downloading,
            },
    {
        let bucket = match state.resolved() {
            Some(bucket) => bucket,
            None => {
                self.downloading = false;
                return Err(AcquisitionError::TimestampResolutionFailed);
            },
        };
        let grid = match TileGridSpec::new(base_url, grid_size_for(height, half), bucket) {
            Some(grid) => grid,
            None => {
                self.downloading = false;
                return Err(AcquisitionError::TimestampResolutionFailed);
            },
        };
        let key = grid.dedup_key(self.name.as_str());
        if key == self.last_key {
            self.downloading = false;
            Ok(None)
        } else {
            Ok(Some(grid))
        }
    }

    /// Ends an acquisition with what it produced: none is running
    /// afterwards, and where it produced a wallpaper, the label of its
    /// capture is the one that is shown from now on.
    pub fn conclude(&mut self, key: String, produced: Result<Canvas, AcquisitionError>) -> (r:
        Result<Canvas, AcquisitionError>)
        ensures
            r == produced,
            final(self)@ == old(self)@.finish(
                if produced is Ok {
                    Some(key@)
                } else {
                    None
                },
            ),
    {
        self.downloading = false;
        match produced {
            Ok(canvas) => {
                self.last_key = key;
                Ok(canvas)
            },
            Err(e) => Err(e),
        }
    }

    /// Takes the replies to the requests for the tiles of `grid`, in the
    /// order of the tiles' indices, and ends the acquisition: with the
    /// wallpaper for a screen of `width` by `height` pixels, or with the
    /// failure of the stage that failed. Either way none is running
    /// afterwards; the label of the capture is kept only with a wallpaper.
    pub fn complete(
        &mut self,
        grid: &TileGridSpec,
        replies: &Vec<TileReply>,
        width: u32,
        height: u32,
        half: bool,
        local_hour: u32,
    ) -> (r: Result<Canvas, AcquisitionError>)
        requires
            grid.wf(),
        ensures
            final(self)@ == old(self)@.finish(
                if r is Ok {
                    Some(grid.key_spec(old(self)@.name))
                } else {
                    None
                },
            ),
            is_completed(
                r,
                replies@,
                grid.spec_grid_size(),
                old(self)@.provider().spec_coordinate_order(),
                width,
                height,
                half,
                local_hour,
            ),
    {
        let fetched = download(replies, grid.grid_size(), self.provider().coordinate_order());
        let ghost given = fetched;
        let produced = produce(fetched, width, height, half, local_hour);
        assert(is_produced(produced, given, width, height, half, local_hour));
        let key = grid.dedup_key(self.name.as_str());
        self.conclude(key, produced)
    }

    /// Takes the replies as `complete` does, at the hour that the local
    /// clock shows.
    pub fn complete_now(
        &mut self,
        grid: &TileGridSpec,
        replies: &Vec<TileReply>,
        width: u32,
        height: u32,
        half: bool,
    ) -> (r: Result<Canvas, AcquisitionError>)
        requires
            grid.wf(),
        ensures
            final(self)@ == old(self)@.finish(
                if r is Ok {
                    Some(grid.key_spec(old(self)@.name))
                } else {
                    None
                },
            ),
            exists|hour: u32|
                hour <= 23 && #[trigger] is_completed(
                    r,
                    replies@,
                    grid.spec_grid_size(),
                    old(self)@.provider().spec_coordinate_order(),
                    width,
                    height,
                    half,
                    hour,
                ),
    {
        let hour = local_hour();
        let r = self.complete(grid, replies, width, height, half, hour);
        assert(is_completed(
            r,
            replies@,
            grid.spec_grid_size(),
            old(self)@.provider().spec_coordinate_order(),
            width,
            height,
            half,
            hour,
        ));
        r
    }
}

/// Whether an acquisition is running.
pub fn is_downlading(coordinator: &Coordinator) -> (r: bool)
    ensures
        r == coordinator@.downloading,
{
    coordinator.downloading
}

/// Records whether an acquisition is running.
pub fn set_downlading(coordinator: &mut Coordinator, d: bool)
    ensures
        final(coordinator)@ == (CoordinatorView { downloading: d, ..old(coordinator)@ }),
{
    coordinator.downloading = d;
}

/// Single flight: once a trigger has begun an acquisition, every further
/// trigger is answered with "already running" and changes nothing, until
/// the acquisition is ended.
pub proof fn lemma_single_flight(c: CoordinatorView)
    ensures
        c.begin().1 == Trigger::Started ==> c.begin().0.begin() == (
            c.begin().0,
            Trigger::AlreadyRunning,
        ),
        c.downloading ==> c.begin() == (c, Trigger::AlreadyRunning),
        forall|shown: Option<Seq<char>>| (#[trigger] c.finish(shown)).begin().1 == Trigger::Started,
{
}

/// Dedup: after an acquisition that showed the capture of label `key`, an
/// acquisition that resolves to the same label skips the fetch, and any
/// other label is fetched.
pub proof fn lemma_same_capture_is_skipped(c: CoordinatorView, key: Seq<char>, other: Seq<char>)
    ensures
        c.finish(Some(key)).decide(key) == Decision::Skip,
        other != key ==> c.finish(Some(key)).decide(other) == Decision::Fetch,
        c.finish(None).decide(other) == c.decide(other),
{
}

/// Dedup, from one acquisition to the next: once the capture of a bucket is
/// shown, an acquisition that resolves to the same bucket, for the same
/// grid, ends without a fetch; and a bucket whose label is another is fetched.
pub proof fn lemma_shown_capture_is_not_fetched_again(
    c: CoordinatorView,
    bucket: i64,
    other: i64,
    height: u32,
    half: bool,
)
    requires
        CALENDAR_MIN <= bucket <= CALENDAR_MAX,
        CALENDAR_MIN <= other <= CALENDAR_MAX,
    ensures
        ({
            let shown = c.finish(Some(bucket_key(c.name, grid_size_spec(height, half), bucket)));
            &&& shown.resolve(ResolverState::Resolved { bucket }, height, half) == Resolution::Skip
            &&& bucket_key(c.name, grid_size_spec(height, half), other) != bucket_key(
                c.name,
                grid_size_spec(height, half),
                bucket,
            ) ==> shown.resolve(ResolverState::Resolved { bucket: other }, height, half)
                == Resolution::Fetch
            &&& shown.resolve(ResolverState::Failed, height, half) == Resolution::Failed
        }),
{
}

} // verus!
