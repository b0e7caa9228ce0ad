use lumin_wallpaper_rs::platform::windows::attach::{Point, WindowCommand, WindowPlacement};
use lumin_wallpaper_rs::platform::windows::models::{MonitorInfo, WindowsPlatform};
use lumin_wallpaper_rs::platform::windows::monitors;

fn monitor(x: i32, y: i32, width: i32, height: i32) -> MonitorInfo {
    MonitorInfo { x, y, width, height, work_width: width, work_height: height }
}

#[test]
fn legacy_update_marks_every_button_held() {
    let mut p = WindowsPlatform::default();
    p.update_mouse_state();
    assert_eq!(p.current_mouse_state, [true; 5]);
    assert_eq!(p.previous_mouse_state, [false; 5]);
    assert!(p.is_mouse_button_pressed(2));
    assert!(p.is_mouse_button_donw(4));
    assert!(!p.is_mouse_button_up(0));
    p.update_mouse_state();
    assert!(!p.is_mouse_button_pressed(2));
    assert!(!p.is_mouse_button_released(2));
}

#[test]
fn legacy_initialize_reports_missing_workerw() {
    let mut p = WindowsPlatform::default();
    assert_eq!(p.initialize(1, Some(2), Err("no WorkerW")), Err("no WorkerW"));
    assert!(p.is_pre_24h2);
    assert_eq!(p.progman_window_handle, Some(1));
    assert_eq!(p.workerw_window_handle, None);
    let mut q = WindowsPlatform::default();
    assert_eq!(q.initialize::<()>(1, None, Ok(3)), Ok(()));
    assert_eq!(q.workerw_window_handle, Some(3));
    assert!(!q.is_pre_24h2);
}

#[test]
fn legacy_cleanup_needs_an_engine() {
    let mut p = monitors::initialize::<()>(1, Some(2), Ok(3)).unwrap();
    assert!(!p.restores_wallpaper_on_cleanup());
    monitors::cleanup(&mut p);
    assert_eq!(p.progman_window_handle, Some(1));
    let _ = monitors::configure_wallpaper_window(4, &monitor(0, 0, 10, 10), &mut p);
    assert!(p.restores_wallpaper_on_cleanup());
    monitors::cleanup(&mut p);
    assert_eq!(p.progman_window_handle, None);
    assert_eq!(p.engine_window_handle, None);
}

#[test]
fn legacy_configure_plan() {
    let mut g = monitors::initialize::<()>(1, Some(2), Ok(3)).unwrap();
    let m = monitor(0, 0, 1920, 1080);
    let (commands, placement) = monitors::configure_wallpaper_window(9, &m, &mut g).unwrap();
    assert_eq!(
        commands,
        vec![
            WindowCommand::MakeChildStyle { hwnd: 9 },
            WindowCommand::MakeLayeredExStyle { hwnd: 9, static_edge_mode: false },
            WindowCommand::SetParent { child: 9, parent: Some(1) },
            WindowCommand::PlaceBelow { hwnd: 9, above: 2 },
            WindowCommand::PlaceBelow { hwnd: 3, above: 9 },
        ]
    );
    assert_eq!(placement, WindowPlacement { x: 0, y: 0, width: 1920, height: 1080 });
    assert_eq!(g.selected_monitor, Some(m));
    let mut none = WindowsPlatform::default();
    assert!(monitors::configure_wallpaper_window(9, &m, &mut none).is_none());
    assert_eq!(none.engine_window_handle, Some(9));
}

#[test]
fn legacy_monitor_normalization_and_target() {
    let mut g = WindowsPlatform::default();
    let ms = vec![monitor(0, 0, 1920, 1080), monitor(-1920, 100, 1920, 1080)];
    let out = monitors::enumerate_monitors(&mut g, ms.clone());
    assert_eq!((out[0].x, out[0].y, out[1].x, out[1].y), (1920, 0, 0, 100));
    assert_eq!((g.desktop_x, g.desktop_y), (-1920, 0));
    let t = monitors::get_wallpaper_target(&mut g, 1, ms.clone(), 3840, 1180);
    assert_eq!(t, monitor(0, 100, 1920, 1080));
    let t = monitors::get_wallpaper_target(&mut g, -1, ms.clone(), 3840, 1180);
    assert_eq!(t, MonitorInfo { x: 0, y: 0, width: 3840, height: 1180, work_width: 0, work_height: 0 });
    let t = monitors::get_wallpaper_target(&mut g, 2, ms, 3840, 1180);
    assert_eq!(t.width, 3840);
}

#[test]
fn legacy_caret_and_cursor_positions() {
    let mut g = WindowsPlatform::default();
    g.desktop_x = -100;
    g.selected_monitor = Some(monitor(50, 10, 100, 100));
    assert_eq!(g.get_mouse_x(Some(Point { x: 0, y: 20 })), 50);
    assert_eq!(g.get_mouse_y(Some(Point { x: 0, y: 20 })), 10);
    assert_eq!(g.get_mouse_x(None), 0);
    assert_eq!(monitors::get_mouse_y(Some(Point { x: 0, y: 20 }), &g), 10);
    assert_eq!(monitors::get_relative_cursor_pos(Some(Point { x: 0, y: 0 }), &g), Some(Point { x: 50, y: -10 }));
}

#[test]
fn legacy_secure_desktop_size_check() {
    assert_eq!(monitors::desktop_name_buffer_len(true, 0, 16), None);
    assert_eq!(monitors::desktop_name_buffer_len(true, 122, 16), Some(9));
    assert_eq!(monitors::desktop_name_buffer_len(false, 0, 16), Some(9));
    assert_eq!(monitors::desktop_name_buffer_len(false, 0, 0), None);
    assert!(!monitors::is_secure_desktop(Some("DEFAULT\0")));
    assert!(monitors::is_desktop_locked(false, Some("lockapp.EXE")));
}

#[test]
fn legacy_capabilities_and_buttons() {
    assert!(WindowsPlatform::supports_dynamuc_wallpaper());
    assert!(WindowsPlatform::supports_multi_monito());
    assert!(monitors::supports_dynamuc_wallpaper());
    assert!(monitors::supports_multi_monito());
    let mut g = WindowsPlatform::default();
    monitors::update_mouse_state(&mut g);
    assert!(monitors::is_mouse_button_pressed(0, &g));
    assert!(monitors::is_mouse_button_donw(1, &g));
    assert!(!monitors::is_mouse_button_released(1, &g));
    assert!(!monitors::is_mouse_button_up(3, &g));
    assert!(!monitors::is_mouse_button_pressed(7, &g));
    assert!(monitors::is_invisible_win10_background_app_window(Some(1)));
}
