//! Names and addresses that the application is built around.

use vstd::prelude::*;

verus! {

/// The application's name as it is shown.
pub const APP_NAME: &'static str = "卫星壁纸";

/// The application's name in file and directory names.
pub const APP_NAME_E: &'static str = "SatelliteWallpaper";

/// The port of the configuration server, unless configured.
pub const DEFAULT_SERVER_PORT: u32 = 50181;

/// The address of the Himawari tile service, unless configured.
pub const DEFAULT_DOWNLOAD_URL_H8: &'static str = "https://himawari8.nict.go.jp/img/";

/// The address of the Fengyun-4B tile service, unless configured.
pub const DEFAULT_DOWNLOAD_URL_FY4B: &'static str =
    "http://rsapp.nsmc.org.cn/swapQuery/public/tileServer/getTile/fy-4b/full_disk/NatureColor_NoLit/";

/// The width of the screen where it cannot be measured.
pub const DEFAULT_SCREEN_WIDTH: i32 = 1920;

/// The height of the screen where it cannot be measured.
pub const DEFAULT_SCREEN_HEIGHT: i32 = 1080;

/// The file name of the wallpaper in the application's directory.
pub const WALLPAPER_FILE_NAME: &'static str = "wallpaper.png";

} // verus!
