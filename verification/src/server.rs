//! What the status page shows, and when the periodic update runs.

use vstd::prelude::*;
use crate::clock::current_time_str;

verus! {

/// Whether an acquisition is running, and the last status line.
#[derive(Clone, Debug)]
pub struct DownloadStatus {
    pub downloading: bool,
    pub status: Option<String>,
}

/// The line that is shown before any status was recorded.
pub open spec fn not_started_text() -> Seq<char> {
    "未启动"@
}

impl DownloadStatus {
    /// A status recorded at the time that `time` names: the time, a space
    /// and the status text.
    pub fn at(downloading: bool, time: &str, status: &str) -> (r: DownloadStatus)
        ensures
            r.downloading == downloading,
            r.status matches Some(line) && line@ == time@ + " "@ + status@,
    {
        let mut line = String::from_str(time);
        line.append(" ");
        line.append(status);
        DownloadStatus { downloading, status: Some(line) }
    }

    /// A status recorded now: the line begins with the local time, which is
    /// followed by a space and the status text.
    pub fn new(downloading: bool, status: &str) -> (r: DownloadStatus)
        ensures
            r.downloading == downloading,
            r.status matches Some(line) && exists|time: Seq<char>|
                line@ == #[trigger] (time + " "@) + status@,
    {
        let time = current_time_str();
        let r = DownloadStatus::at(downloading, time.as_str(), status);
        assert(r.status->0@ == (time@ + " "@) + status@);
        r
    }

    /// The status line, or the line for "not started" where none was recorded.
    pub fn status(&self) -> (r: String)
        ensures
            r@ == match self.status {
                Some(line) => line@,
                None => not_started_text(),
            },
    {
        match &self.status {
            Some(line) => line.clone(),
            None => String::from_str("未启动"),
        }
    }
}

/// What the update loop does at one of its ticks.
#[derive(Clone, Copy, Debug, PartialEq, Eq, Structural)]
pub enum TickAction {
    /// An update is due and none is running: acquire.
    Acquire,
    /// An update is due but one is running: wait.
    Busy,
    /// No update is due: report when the last one was.
    ReportLast,
}

/// Whether an update is due: none has run, or more than the interval has
/// passed since the last one began.
pub open spec fn is_due(since_last_seconds: Option<u64>, update_interval_minutes: u32) -> bool {
    match since_last_seconds {
        None => true,
        Some(seconds) => seconds > update_interval_minutes * 60,
    }
}

/// What the update loop does at a tick, given the seconds since its last
/// update began (`None` where it has not run one), the configured interval
/// and whether an acquisition is running.
pub fn on_tick(since_last_seconds: Option<u64>, update_interval_minutes: u32, downloading: bool) -> (r:
    TickAction)
    ensures
        r == if !is_due(since_last_seconds, update_interval_minutes) {
            TickAction::ReportLast
        } else if downloading {
            TickAction::Busy
        } else {
            TickAction::Acquire
        },
{
    let due = match since_last_seconds {
        None => true,
        Some(seconds) => seconds > (update_interval_minutes as u64) * 60,
    };
    if !due {
        TickAction::ReportLast
    } else if downloading {
        TickAction::Busy
    } else {
        TickAction::Acquire
    }
}

/// The status text that reports the last update: its time, or "none".
pub fn last_update_label(last_update: Option<&str>) -> (r: String)
    ensures
        r@ == "上次更新: "@ + match last_update {
            Some(time) => time@,
            None => "无"@,
        },
{
    let mut label = String::from_str("上次更新: ");
    match last_update {
        Some(time) => {
            label.append(time);
        },
        None => {
            label.append("无");
        },
    }
    label
}

} // verus!
