//! The configuration that is kept between runs.

use vstd::prelude::*;
use crate::clock::local_time_str;
use crate::def::DEFAULT_DOWNLOAD_URL_FY4B;
use crate::def::DEFAULT_DOWNLOAD_URL_H8;
use crate::def::DEFAULT_SERVER_PORT;
use crate::downloader::TileProvider;
use crate::resolver::CALENDAR_MAX;
use crate::resolver::CALENDAR_MIN;

verus! {

/// The configuration.
#[derive(Clone, Debug)]
pub struct Config {
    /// The minutes between two updates of the wallpaper.
    pub update_interval: u32,
    /// What is shown: 1 for the whole disk, 2 for half of it.
    pub display_type: u32,
    /// The port of the configuration server.
    pub server_port: u32,
    /// The address of the Himawari tile service.
    pub download_url_h8: String,
    /// The address of the Fengyun-4B tile service.
    pub download_url_fy4b: String,
    /// The name of the satellite whose captures are shown.
    pub satellite_name: String,
    /// The wallpaper that was set before this application set one.
    pub old_wallpaper: String,
    /// The label of the capture that is shown.
    pub current_wallpaper_date: String,
    /// The file of the wallpaper that is shown.
    pub current_wallpaper_file: String,
    /// When the wallpaper was last written, in milliseconds of Unix time.
    pub last_download_timestamp: Option<i64>,
    /// The file that the configuration is kept in.
    pub config_path: String,
}

/// The text for "never".
pub open spec fn never_text() -> Seq<char> {
    "无"@
}

/// Whether a time of the last update is one that the calendar reaches.
pub open spec fn has_calendar_time(last_download_timestamp: Option<i64>) -> bool {
    last_download_timestamp matches Some(millis) && CALENDAR_MIN * 1000 <= millis <= CALENDAR_MAX
        * 1000
}

impl Default for Config {
    /// The configuration of a first run: an update every ten minutes, the
    /// whole disk, Fengyun-4B, and nothing shown yet.
    fn default() -> (r: Self)
        ensures
            r.update_interval == 10,
            r.display_type == 1,
            r.server_port == DEFAULT_SERVER_PORT,
            r.download_url_h8@ == DEFAULT_DOWNLOAD_URL_H8@,
            r.download_url_fy4b@ == DEFAULT_DOWNLOAD_URL_FY4B@,
            r.satellite_name@ == "fy4b"@,
            r.old_wallpaper@ == Seq::<char>::empty(),
            r.current_wallpaper_date@ == Seq::<char>::empty(),
            r.current_wallpaper_file@ == Seq::<char>::empty(),
            r.last_download_timestamp is None,
            r.config_path@ == Seq::<char>::empty(),
    {
        Config {
            update_interval: 10,
            display_type: 1,
            server_port: DEFAULT_SERVER_PORT,
            download_url_h8: String::from_str(DEFAULT_DOWNLOAD_URL_H8),
            download_url_fy4b: String::from_str(DEFAULT_DOWNLOAD_URL_FY4B),
            satellite_name: String::from_str("fy4b"),
            old_wallpaper: String::new(),
            current_wallpaper_date: String::new(),
            current_wallpaper_file: String::new(),
            last_download_timestamp: None,
            config_path: String::new(),
        }
    }
}

impl Config {
    /// The text for the time of the last update: the local time where the
    /// calendar gives one, else the text for "never".
    pub fn last_update_text(local_time: Option<String>) -> (r: String)
        ensures
            r@ == match local_time {
                Some(text) => text@,
                None => never_text(),
            },
    {
        match local_time {
            Some(text) => text,
            None => String::from_str("无"),
        }
    }

    /// When the wallpaper was last written, as local date and time; the
    /// text for "never" where it never was, or at a time that the calendar
    /// of the years -9999 to 9999 does not reach.
    pub fn get_last_update_time_str(&self) -> (r: String)
        ensures
            !has_calendar_time(self.last_download_timestamp) ==> r@ == never_text(),
    {
        match self.last_download_timestamp {
            Some(millis) => {
                if millis >= CALENDAR_MIN * 1000 && millis <= CALENDAR_MAX * 1000 {
                    Config::last_update_text(local_time_str(millis))
                } else {
                    Config::last_update_text(None)
                }
            },
            None => Config::last_update_text(None),
        }
    }

    /// The provider whose captures are shown.
    pub fn provider(&self) -> (r: TileProvider)
        ensures
            r == if self.satellite_name@ == "h8"@ {
                TileProvider::H8
            } else {
                TileProvider::Fy4b
            },
    {
        TileProvider::from_name(self.satellite_name.as_str())
    }

    /// The configured address of a provider's tile service.
    pub fn download_url(&self, provider: TileProvider) -> (r: &str)
        ensures
            r@ == match provider {
                TileProvider::H8 => self.download_url_h8@,
                TileProvider::Fy4b => self.download_url_fy4b@,
            },
    {
        match provider {
            TileProvider::H8 => self.download_url_h8.as_str(),
            TileProvider::Fy4b => self.download_url_fy4b.as_str(),
        }
    }

    /// Chooses the satellite by its place in the settings: Fengyun-4B for
    /// the first place, Himawari for any other. The capture that is shown
    /// is forgotten, so that the next acquisition is not skipped.
    pub fn change_satellite(&mut self, select_index: i32)
        ensures
            final(self).satellite_name@ == if select_index == 0 {
                "fy4b"@
            } else {
                "h8"@
            },
            final(self).current_wallpaper_date@ == Seq::<char>::empty(),
            final(self).update_interval == old(self).update_interval,
            final(self).display_type == old(self).display_type,
            final(self).server_port == old(self).server_port,
            final(self).download_url_h8 == old(self).download_url_h8,
            final(self).download_url_fy4b == old(self).download_url_fy4b,
            final(self).old_wallpaper == old(self).old_wallpaper,
            final(self).current_wallpaper_file == old(self).current_wallpaper_file,
            final(self).last_download_timestamp == old(self).last_download_timestamp,
            final(self).config_path == old(self).config_path,
    {
        if select_index == 0 {
            self.satellite_name = String::from_str("fy4b");
        } else {
            self.satellite_name = String::from_str("h8");
        }
        self.current_wallpaper_date = String::new();
    }

    /// Chooses the minutes between two updates by their place in the
    /// settings: ten minutes for the first place, ten more for each further
    /// one, up to an hour. Any other place changes nothing.
    pub fn change_interval(&mut self, select_index: i32) -> (changed: bool)
        ensures
            changed == (0 <= select_index < 6),
            changed ==> final(self).update_interval == (select_index + 1) * 10,
            !changed ==> final(self).update_interval == old(self).update_interval,
            final(self).display_type == old(self).display_type,
            final(self).server_port == old(self).server_port,
            final(self).download_url_h8 == old(self).download_url_h8,
            final(self).download_url_fy4b == old(self).download_url_fy4b,
            final(self).satellite_name == old(self).satellite_name,
            final(self).old_wallpaper == old(self).old_wallpaper,
            final(self).current_wallpaper_date == old(self).current_wallpaper_date,
            final(self).current_wallpaper_file == old(self).current_wallpaper_file,
            final(self).last_download_timestamp == old(self).last_download_timestamp,
            final(self).config_path == old(self).config_path,
    {
        if 0 <= select_index && select_index < 6 {
            self.update_interval = ((select_index + 1) * 10) as u32;
            true
        } else {
            false
        }
    }

    /// Chooses what is shown by its place in the settings: the whole disk
    /// for the first place, half of it for the second. The capture that is
    /// shown is forgotten, so that the next acquisition is not skipped. Any
    /// other place changes nothing.
    pub fn change_wallpaper_size(&mut self, select_index: i32) -> (changed: bool)
        ensures
            changed == (0 <= select_index < 2),
            changed ==> final(self).display_type == select_index + 1
                && final(self).current_wallpaper_date@ == Seq::<char>::empty(),
            !changed ==> final(self).display_type == old(self).display_type
                && final(self).current_wallpaper_date == old(self).current_wallpaper_date,
            final(self).update_interval == old(self).update_interval,
            final(self).server_port == old(self).server_port,
            final(self).download_url_h8 == old(self).download_url_h8,
            final(self).download_url_fy4b == old(self).download_url_fy4b,
            final(self).satellite_name == old(self).satellite_name,
            final(self).old_wallpaper == old(self).old_wallpaper,
            final(self).current_wallpaper_file == old(self).current_wallpaper_file,
            final(self).last_download_timestamp == old(self).last_download_timestamp,
            final(self).config_path == old(self).config_path,
    {
        if 0 <= select_index && select_index < 2 {
            self.display_type = (select_index + 1) as u32;
            self.current_wallpaper_date = String::new();
            true
        } else {
            false
        }
    }

    /// Keeps the wallpaper that was set before this application set one:
    /// the first that is reported, and no later one.
    pub fn remember_old_wallpaper(&mut self, current: Option<String>)
        ensures
            final(self).old_wallpaper@ == if old(self).old_wallpaper@.len() == 0 && current is Some {
                current->0@
            } else {
                old(self).old_wallpaper@
            },
            final(self).update_interval == old(self).update_interval,
            final(self).display_type == old(self).display_type,
            final(self).server_port == old(self).server_port,
            final(self).download_url_h8 == old(self).download_url_h8,
            final(self).download_url_fy4b == old(self).download_url_fy4b,
            final(self).satellite_name == old(self).satellite_name,
            final(self).current_wallpaper_date == old(self).current_wallpaper_date,
            final(self).current_wallpaper_file == old(self).current_wallpaper_file,
            final(self).last_download_timestamp == old(self).last_download_timestamp,
            final(self).config_path == old(self).config_path,
    {
        if self.old_wallpaper.as_str().unicode_len() == 0 {
            match current {
                Some(path) => {
                    self.old_wallpaper = path;
                },
                None => {},
            }
        }
    }

    /// Records a wallpaper that was written: the label of its capture, its
    /// file and the time, in milliseconds of Unix time.
    pub fn record_wallpaper(&mut self, key: String, file: String, now_millis: i64)
        ensures
            final(self).current_wallpaper_date == key,
            final(self).current_wallpaper_file == file,
            final(self).last_download_timestamp == Some(now_millis),
            final(self).update_interval == old(self).update_interval,
            final(self).display_type == old(self).display_type,
            final(self).server_port == old(self).server_port,
            final(self).download_url_h8 == old(self).download_url_h8,
            final(self).download_url_fy4b == old(self).download_url_fy4b,
            final(self).satellite_name == old(self).satellite_name,
            final(self).old_wallpaper == old(self).old_wallpaper,
            final(self).config_path == old(self).config_path,
    {
        self.current_wallpaper_date = key;
        self.current_wallpaper_file = file;
        self.last_download_timestamp = Some(now_millis);
    }
}

} // verus!
