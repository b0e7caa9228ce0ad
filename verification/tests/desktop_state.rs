use lumin_wallpaper_rs::platform::windows::attach::Rect;
use lumin_wallpaper_rs::platform::windows::functions::{
    desktop_name_buffer_len, eq_ignore_ascii_case, has_workerw_between_step, is_desktop_locked,
    is_invisible_win10_background_app_window, is_point_occluded, is_secure_desktop,
    is_workerw_class, occlusion_sample_counts, str_equals, trimmed_nul_length, SampleCounts,
    ZOrderScanStep,
};

#[test]
fn ascii_case_insensitive_equality() {
    assert!(eq_ignore_ascii_case("LOCKAPP.EXE", "LockApp.exe"));
    assert!(eq_ignore_ascii_case("lockapp.exe", "LockApp.exe"));
    assert!(!eq_ignore_ascii_case("LockApp.ex", "LockApp.exe"));
    assert!(!eq_ignore_ascii_case("LockApp.exf", "LockApp.exe"));
    assert!(eq_ignore_ascii_case("", ""));
    assert!(!eq_ignore_ascii_case("É", "é"));
    assert!(eq_ignore_ascii_case("É", "É"));
}

#[test]
fn exact_string_equality() {
    assert!(str_equals("WorkerW", "WorkerW"));
    assert!(!str_equals("workerw", "WorkerW"));
    assert!(!str_equals("WorkerW2", "WorkerW"));
}

#[test]
fn trailing_nuls_are_not_part_of_the_name() {
    assert_eq!(trimmed_nul_length("Default\0\0"), 7);
    assert_eq!(trimmed_nul_length("Default"), 7);
    assert_eq!(trimmed_nul_length("\0\0"), 0);
    assert_eq!(trimmed_nul_length("a\0b\0"), 3);
}

#[test]
fn desktop_lock_detection() {
    assert!(is_desktop_locked(true, None));
    assert!(is_desktop_locked(true, Some("explorer.exe")));
    assert!(is_desktop_locked(false, Some("LockApp.exe")));
    assert!(is_desktop_locked(false, Some("LOCKAPP.EXE")));
    assert!(!is_desktop_locked(false, Some("explorer.exe")));
    assert!(!is_desktop_locked(false, None));
}

#[test]
fn secure_desktop_detection() {
    assert!(!is_secure_desktop(Some("Default\0")));
    assert!(!is_secure_desktop(Some("default")));
    assert!(is_secure_desktop(Some("Winlogon\0")));
    assert!(is_secure_desktop(Some("Default\0x")));
    assert!(is_secure_desktop(None));
}

#[test]
fn desktop_name_buffer_sizes() {
    assert_eq!(desktop_name_buffer_len(false, 122, 16), Some(9));
    assert_eq!(desktop_name_buffer_len(true, 0, 14), Some(8));
    assert_eq!(desktop_name_buffer_len(false, 5, 16), None);
    assert_eq!(desktop_name_buffer_len(false, 122, 0), None);
}

#[test]
fn cloaked_windows_are_invisible() {
    assert!(!is_invisible_win10_background_app_window(None));
    assert!(!is_invisible_win10_background_app_window(Some(0)));
    assert!(is_invisible_win10_background_app_window(Some(2)));
}

#[test]
fn zorder_scan_steps() {
    assert_eq!(has_workerw_between_step(10, None), ZOrderScanStep::Finished(false));
    assert_eq!(has_workerw_between_step(10, Some(10)), ZOrderScanStep::Finished(false));
    assert_eq!(has_workerw_between_step(10, Some(11)), ZOrderScanStep::InspectClass(11));
    assert!(is_workerw_class("WorkerW"));
    assert!(!is_workerw_class("Progman"));
}

fn rect(left: i32, top: i32, right: i32, bottom: i32) -> Rect {
    Rect { left, top, right, bottom }
}

#[test]
fn point_in_rectangles() {
    let rects = [rect(0, 0, 10, 10), rect(20, 20, 30, 30)];
    assert!(is_point_occluded(&rects, 0, 0));
    assert!(!is_point_occluded(&rects, 10, 0));
    assert!(is_point_occluded(&rects, 29, 29));
    assert!(!is_point_occluded(&rects, 15, 15));
    assert!(!is_point_occluded(&[], 0, 0));
}

#[test]
fn full_cover_occludes_every_sample() {
    let counts = occlusion_sample_counts(&[rect(0, 0, 1920, 1080)], 0, 0, 1920, 1080, 100);
    assert_eq!(counts, SampleCounts { occluded: 220, total: 220 });
}

#[test]
fn no_occluders_no_hits() {
    let counts = occlusion_sample_counts(&[], 0, 0, 1920, 1080, 50);
    assert_eq!(counts, SampleCounts { occluded: 0, total: 39 * 22 });
}

#[test]
fn half_cover_occludes_half_the_columns() {
    let counts = occlusion_sample_counts(&[rect(0, 0, 960, 1080)], 0, 0, 1920, 1080, 100);
    assert_eq!(counts.total, 220);
    assert_eq!(counts.occluded, 110);
}

#[test]
fn empty_area_has_no_samples() {
    assert_eq!(occlusion_sample_counts(&[rect(0, 0, 10, 10)], 0, 0, 0, 1080, 10).total, 0);
    assert_eq!(occlusion_sample_counts(&[], 5, 5, -10, 10, 10).total, 0);
}

#[test]
fn samples_start_at_the_area_corner() {
    // Samples at x in {-100, 0, 100}, y in {50}: only the first lies in the rectangle.
    let counts = occlusion_sample_counts(&[rect(-150, 0, -50, 100)], -100, 50, 300, 1, 100);
    assert_eq!(counts, SampleCounts { occluded: 1, total: 3 });
}

#[test]
fn huge_step_samples_only_the_corner() {
    let counts = occlusion_sample_counts(&[rect(0, 0, 1, 1)], 0, 0, 1920, 1080, usize::MAX);
    assert_eq!(counts, SampleCounts { occluded: 1, total: 1 });
}
