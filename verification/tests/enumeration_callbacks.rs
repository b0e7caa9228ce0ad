use lumin_wallpaper_rs::platform::windows::attach::{AttachWindow, FullscreenOcclusionData, MonitorInfo, Rect};
use lumin_wallpaper_rs::platform::windows::models;
use lumin_wallpaper_rs::platform::windows::procs::{
    intersect_rect, model_monitor_info_from_rects, monitor_info_from_rects, occlusion_geometry_in_range,
    TopLevelWindow,
};

fn rect(left: i32, top: i32, right: i32, bottom: i32) -> Rect {
    Rect { left, top, right, bottom }
}

fn window(hwnd: isize, class_name: &str, r: Rect) -> TopLevelWindow {
    TopLevelWindow {
        hwnd,
        is_visible: true,
        is_iconic: false,
        is_shell_window: false,
        class_name: class_name.to_string(),
        is_cloaked: false,
        window_rect: Some(r),
    }
}

fn monitor() -> MonitorInfo {
    MonitorInfo { x: 0, y: 0, width: 1920, height: 1080, work_x: 0, work_y: 0, work_width: 1920, work_height: 1040 }
}

#[test]
fn rectangle_intersection() {
    assert_eq!(intersect_rect(&rect(0, 0, 10, 10), &rect(5, 5, 20, 20)), Some(rect(5, 5, 10, 10)));
    assert_eq!(intersect_rect(&rect(0, 0, 10, 10), &rect(10, 0, 20, 10)), None);
    assert_eq!(intersect_rect(&rect(0, 0, 0, 10), &rect(-5, -5, 5, 5)), None);
    assert_eq!(intersect_rect(&rect(-5, -5, 5, 5), &rect(-5, -5, 5, 5)), Some(rect(-5, -5, 5, 5)));
}

#[test]
fn covering_window_is_clipped_to_the_monitor() {
    let platform = AttachWindow::default();
    let mut data = FullscreenOcclusionData::new(monitor());
    data.record_window(&platform, &window(7, "Chrome_WidgetWin_1", rect(-10, -10, 3000, 500)));
    assert_eq!(data.occluded_rects, vec![rect(0, 0, 1920, 500)]);
}

#[test]
fn ignored_windows_do_not_occlude() {
    let mut platform = AttachWindow::initialize(1, Some(2), Some(3));
    let _ = platform.configure_wallpaper_window(4, false);
    platform.desktop_x = 0;
    platform.desktop_y = 0;
    let mut data = FullscreenOcclusionData::new(monitor());
    let full = rect(0, 0, 1920, 1080);
    data.record_window(&platform, &window(4, "Engine", full));
    data.record_window(&platform, &window(3, "Other", full));
    data.record_window(&platform, &window(8, "WorkerW", full));
    data.record_window(&platform, &window(9, "CEF-OSC-WIDGET", full));
    let mut hidden = window(10, "App", full);
    hidden.is_visible = false;
    data.record_window(&platform, &hidden);
    let mut minimized = window(11, "App", full);
    minimized.is_iconic = true;
    data.record_window(&platform, &minimized);
    let mut shell = window(12, "App", full);
    shell.is_shell_window = true;
    data.record_window(&platform, &shell);
    let mut cloaked = window(13, "App", full);
    cloaked.is_cloaked = true;
    data.record_window(&platform, &cloaked);
    let mut no_rect = window(14, "App", full);
    no_rect.window_rect = None;
    data.record_window(&platform, &no_rect);
    data.record_window(&platform, &window(15, "App", rect(2000, 0, 2100, 100)));
    assert!(data.occluded_rects.is_empty());
    data.record_window(&platform, &window(16, "App", full));
    assert_eq!(data.occluded_rects.len(), 1);
}

#[test]
fn window_rectangles_move_into_desktop_coordinates() {
    let mut platform = AttachWindow::default();
    platform.desktop_x = -1920;
    platform.desktop_y = 0;
    let mut data = FullscreenOcclusionData::new(monitor());
    data.record_window(&platform, &window(7, "App", rect(-1920, 0, -1820, 100)));
    assert_eq!(data.occluded_rects, vec![rect(0, 0, 100, 100)]);
}

#[test]
fn monitor_from_monitor_and_work_rectangles() {
    let m = monitor_info_from_rects(&rect(-1280, -200, 0, 824), &rect(-1280, -200, 0, 784));
    assert_eq!(
        m,
        MonitorInfo { x: -1280, y: -200, width: 1280, height: 1024, work_x: -1280, work_y: -200, work_width: 1280, work_height: 984 }
    );
}

#[test]
fn model_monitor_from_monitor_and_work_rectangles() {
    let m = model_monitor_info_from_rects(&rect(1920, 0, 3200, 1024), &rect(1920, 40, 3200, 1024));
    assert_eq!(
        m,
        models::MonitorInfo { x: 1920, y: 0, width: 1280, height: 1024, work_width: 1280, work_height: 984 }
    );
}

#[test]
fn skipped_windows_need_no_geometry() {
    let mut platform = AttachWindow::initialize(1, Some(2), Some(3));
    let _ = platform.configure_wallpaper_window(4, false);
    platform.desktop_x = i32::MIN;
    let far = MonitorInfo { x: i32::MAX - 10, y: 0, width: 100, height: 100, work_x: 0, work_y: 0, work_width: 0, work_height: 0 };
    let engine = window(4, "Engine", rect(i32::MAX - 1, 0, i32::MAX, 10));
    let other = window(7, "App", rect(i32::MAX - 1, 0, i32::MAX, 10));
    assert!(occlusion_geometry_in_range(Some(4), Some(3), i32::MIN, 0, far.x, far.y, far.width, far.height, &engine));
    assert!(!occlusion_geometry_in_range(Some(4), Some(3), i32::MIN, 0, far.x, far.y, far.width, far.height, &other));
    let mut data = FullscreenOcclusionData::new(far);
    data.record_window(&platform, &engine);
    assert!(data.occluded_rects.is_empty());
    let mut no_rect = window(8, "App", rect(0, 0, 1, 1));
    no_rect.window_rect = None;
    assert!(occlusion_geometry_in_range(Some(4), Some(3), i32::MIN, 0, far.x, far.y, far.width, far.height, &no_rect));
    data.record_window(&platform, &no_rect);
    assert!(data.occluded_rects.is_empty());
}

#[test]
fn eligible_window_geometry_is_checked() {
    let w = window(7, "App", rect(0, 0, 100, 100));
    assert!(occlusion_geometry_in_range(None, None, 0, 0, 0, 0, 1920, 1080, &w));
    assert!(!occlusion_geometry_in_range(None, None, 0, 0, i32::MAX, 0, 1, 1080, &w));
    assert!(!occlusion_geometry_in_range(None, None, 1, 0, 0, 0, 1920, 1080, &window(7, "App", rect(i32::MIN, 0, 0, 1))));
}
