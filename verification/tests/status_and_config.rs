use satellite_wallpaper::clock::current_time_str;
use satellite_wallpaper::clock::local_hour;
use satellite_wallpaper::config::Config;
use satellite_wallpaper::def::DEFAULT_DOWNLOAD_URL_FY4B;
use satellite_wallpaper::def::DEFAULT_DOWNLOAD_URL_H8;
use satellite_wallpaper::downloader::fy4a;
use satellite_wallpaper::downloader::TileProvider;
use satellite_wallpaper::platform::convert_image_to_vec;
use satellite_wallpaper::platform::get_screen_size;
use satellite_wallpaper::platform::get_wallpaper_file_path;
use satellite_wallpaper::platform::get_window_size;
use satellite_wallpaper::platform::has_wallpaper_permission;
use satellite_wallpaper::platform::request_wallpaper_permission;
use satellite_wallpaper::platform::rgba_to_i32;
use satellite_wallpaper::raster::TileImage;
use satellite_wallpaper::server::last_update_label;
use satellite_wallpaper::server::on_tick;
use satellite_wallpaper::server::DownloadStatus;
use satellite_wallpaper::server::TickAction;
use satellite_wallpaper::text::digit_str;
use satellite_wallpaper::text::push_decimal;
use satellite_wallpaper::text::push_decimal_width2;
use satellite_wallpaper::text::push_signed_decimal;

#[test]
fn status_line_is_time_space_text() {
    let status = DownloadStatus::at(true, "2024/10/29 14:45:00", "downloading");
    assert!(status.downloading);
    assert_eq!(status.status(), "2024/10/29 14:45:00 downloading");
}

#[test]
fn status_recorded_now_ends_with_its_text() {
    let status = DownloadStatus::new(false, "idle");
    assert!(!status.downloading);
    let line = status.status();
    assert!(line.ends_with(" idle"));
    // The time is rendered as year/month/day hour:minute:second.
    assert_eq!(line.len(), "2024/10/29 14:45:00 idle".len());
    assert_eq!(&line[4..5], "/");
    assert_eq!(&line[13..14], ":");
}

#[test]
fn status_without_a_line_is_not_started() {
    let status = DownloadStatus { downloading: false, status: None };
    assert_eq!(status.status(), "未启动");
}

#[test]
fn clock_text_has_nineteen_characters() {
    let now = current_time_str();
    assert_eq!(now.len(), 19);
    assert_eq!(&now[10..11], " ");
}

#[test]
fn update_runs_when_due_and_idle() {
    assert_eq!(on_tick(None, 10, false), TickAction::Acquire);
    assert_eq!(on_tick(None, 10, true), TickAction::Busy);
    assert_eq!(on_tick(Some(600), 10, false), TickAction::ReportLast);
    assert_eq!(on_tick(Some(601), 10, false), TickAction::Acquire);
    assert_eq!(on_tick(Some(601), 10, true), TickAction::Busy);
    assert_eq!(on_tick(Some(0), 0, false), TickAction::ReportLast);
    assert_eq!(on_tick(Some(1), 0, false), TickAction::Acquire);
    assert_eq!(on_tick(Some(u64::MAX), u32::MAX, false), TickAction::Acquire);
}

#[test]
fn last_update_is_reported_or_none() {
    assert_eq!(last_update_label(Some("12:00")), "上次更新: 12:00");
    assert_eq!(last_update_label(None), "上次更新: 无");
}

#[test]
fn default_config_shows_the_whole_disk_of_fengyun() {
    let config = Config::default();
    assert_eq!(config.update_interval, 10);
    assert_eq!(config.display_type, 1);
    assert_eq!(config.server_port, 50181);
    assert_eq!(config.download_url_h8, DEFAULT_DOWNLOAD_URL_H8);
    assert_eq!(config.download_url_fy4b, DEFAULT_DOWNLOAD_URL_FY4B);
    assert_eq!(config.satellite_name, "fy4b");
    assert_eq!(config.old_wallpaper, "");
    assert_eq!(config.current_wallpaper_date, "");
    assert_eq!(config.current_wallpaper_file, "");
    assert_eq!(config.last_download_timestamp, None);
    assert_eq!(config.config_path, "");
    assert_eq!(config.provider(), TileProvider::Fy4b);
    assert_eq!(config.download_url(TileProvider::H8), DEFAULT_DOWNLOAD_URL_H8);
    assert_eq!(config.download_url(TileProvider::Fy4b), DEFAULT_DOWNLOAD_URL_FY4B);
}

#[test]
fn last_update_time_is_never_before_the_first_download() {
    let mut config = Config::default();
    assert_eq!(config.get_last_update_time_str(), "无");
    config.last_download_timestamp = Some(1_730_213_100_000);
    let text = config.get_last_update_time_str();
    assert_eq!(text.len(), 19);
    assert!(text.starts_with("2024/10/"));
    config.last_download_timestamp = Some(i64::MAX);
    assert_eq!(config.get_last_update_time_str(), "无");
    assert_eq!(Config::last_update_text(Some(String::from("then"))), "then");
    assert_eq!(Config::last_update_text(None), "无");
}

#[test]
fn old_wallpaper_is_remembered_once() {
    let mut config = Config::default();
    config.remember_old_wallpaper(None);
    assert_eq!(config.old_wallpaper, "");
    config.remember_old_wallpaper(Some(String::from("/first.png")));
    assert_eq!(config.old_wallpaper, "/first.png");
    config.remember_old_wallpaper(Some(String::from("/second.png")));
    assert_eq!(config.old_wallpaper, "/first.png");
}

#[test]
fn written_wallpaper_is_recorded() {
    let mut config = Config::default();
    config.satellite_name = String::from("h8");
    config.record_wallpaper(String::from("key"), String::from("/w.png"), 77);
    assert_eq!(config.current_wallpaper_date, "key");
    assert_eq!(config.current_wallpaper_file, "/w.png");
    assert_eq!(config.last_download_timestamp, Some(77));
    assert_eq!(config.provider(), TileProvider::H8);
    assert_eq!(config.update_interval, 10);
}

#[test]
fn screen_size_falls_back_to_full_hd() {
    assert_eq!(get_screen_size(None), (1920, 1080));
    assert_eq!(get_screen_size(Some((2560, 1440))), (2560, 1440));
    assert_eq!(get_screen_size(Some((0, 0))), (0, 0));
}

#[test]
fn window_size_falls_back_to_an_upright_phone() {
    assert_eq!(get_window_size(0, 0), (1080, 1920));
    assert_eq!(get_window_size(0, 100), (1080, 1920));
    assert_eq!(get_window_size(100, 0), (1080, 1920));
    assert_eq!(get_window_size(720, 1280), (720, 1280));
}

#[test]
fn wallpaper_file_lies_in_the_home_directory() {
    assert_eq!(get_wallpaper_file_path("/data/app"), "/data/app/wallpaper.png");
    assert_eq!(get_wallpaper_file_path(""), "/wallpaper.png");
}

#[test]
fn permission_is_needed_after_version_23() {
    assert!(has_wallpaper_permission(23, false));
    assert!(has_wallpaper_permission(1, false));
    assert!(!has_wallpaper_permission(24, false));
    assert!(has_wallpaper_permission(24, true));
    assert!(!request_wallpaper_permission(23, false));
    assert!(request_wallpaper_permission(24, false));
    assert!(!request_wallpaper_permission(24, true));
    assert!(!request_wallpaper_permission(33, true));
}

#[test]
fn colours_are_packed_alpha_first() {
    assert_eq!(rgba_to_i32(0x12, 0x34, 0x56, 0x78), 0x7812_3456);
    assert_eq!(rgba_to_i32(0, 0, 0, 0), 0);
    assert_eq!(rgba_to_i32(255, 255, 255, 255), -1);
    assert_eq!(rgba_to_i32(0, 0, 0, 255), -16_777_216);
    assert_eq!(rgba_to_i32(0, 0, 1, 128), i32::MIN + 1);
    let image = TileImage::from_raw(2, 1, vec![1, 2, 3, 4, 255, 0, 0, 255]).unwrap();
    assert_eq!(convert_image_to_vec(&image), vec![0x0401_0203, -65_536]);
}

#[test]
fn decimal_text_matches_the_standard_rendering() {
    for n in [0u64, 7, 9, 10, 11, 99, 100, 101, 2024, 4_294_967_295, u64::MAX] {
        let mut out = String::from("n=");
        push_decimal(&mut out, n);
        assert_eq!(out, format!("n={}", n));
        let mut out = String::new();
        push_decimal_width2(&mut out, n);
        assert_eq!(out, format!("{:02}", n));
    }
    for i in [0i32, -1, 1, -2024, 2024, i32::MAX, i32::MIN] {
        let mut out = String::new();
        push_signed_decimal(&mut out, i);
        assert_eq!(out, format!("{}", i));
    }
    assert_eq!(digit_str(0), "0");
    assert_eq!(digit_str(9), "9");
}

#[test]
fn fengyun_4a_addresses_are_those_of_its_successor() {
    assert_eq!(
        fy4a::format_url("http://a/", 2021, 5, 30, 7, 0, 1, 1, 0),
        "http://a/20210530070000/jpg/1/1/0.png"
    );
    assert_eq!(
        fy4a::format_url("", -5, 12, 1, 0, 5, 0, 0, 0),
        "-51201000500/jpg/0/0/0.png"
    );
}

#[test]
fn settings_choose_by_place() {
    let mut config = Config::default();
    config.current_wallpaper_date = String::from("shown");
    config.change_satellite(1);
    assert_eq!(config.satellite_name, "h8");
    assert_eq!(config.current_wallpaper_date, "");
    config.change_satellite(0);
    assert_eq!(config.satellite_name, "fy4b");
    config.change_satellite(-3);
    assert_eq!(config.satellite_name, "h8");

    for (place, minutes) in [(0, 10u32), (1, 20), (2, 30), (3, 40), (4, 50), (5, 60)] {
        assert!(config.change_interval(place));
        assert_eq!(config.update_interval, minutes);
    }
    assert!(!config.change_interval(6));
    assert!(!config.change_interval(-1));
    assert_eq!(config.update_interval, 60);

    config.current_wallpaper_date = String::from("shown");
    assert!(!config.change_wallpaper_size(2));
    assert_eq!(config.current_wallpaper_date, "shown");
    assert!(config.change_wallpaper_size(1));
    assert_eq!(config.display_type, 2);
    assert_eq!(config.current_wallpaper_date, "");
    assert!(config.change_wallpaper_size(0));
    assert_eq!(config.display_type, 1);
}

#[test]
fn local_hour_is_an_hour_of_the_day() {
    assert!(local_hour() <= 23);
}
