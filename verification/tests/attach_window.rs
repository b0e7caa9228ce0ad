use lumin_wallpaper_rs::platform::windows::attach::{
    get_virtual_key_for_mouse_button, is_async_key_down, select_wallpaper_target,
    static_edge_ex_style, wallpaper_ex_style, wallpaper_style, AttachWindow, CleanupSteps, MonitorError,
    MonitorInfo, Point, WatcherError, WatcherTargets, WindowCommand, WindowPlacement,
};

fn monitor(x: i32, y: i32, width: i32, height: i32) -> MonitorInfo {
    MonitorInfo {
        x,
        y,
        width,
        height,
        work_x: x,
        work_y: y,
        work_width: width,
        work_height: height - 40,
    }
}

fn attached_24h2() -> AttachWindow {
    let mut state = AttachWindow::initialize(100, Some(200), Some(300));
    let _ = state.configure_wallpaper_window(400, false);
    state
}

#[test]
fn default_state_is_empty() {
    let state = AttachWindow::default();
    assert_eq!(state.progman_window_handle, None);
    assert_eq!(state.engine_window_handle, None);
    assert_eq!(state.desktop_x, 0);
    assert_eq!(state.current_mouse_state, [false; 5]);
    assert!(!state.is_pre_24h2);
    assert!(!state.is_watcher_running());
}

#[test]
fn virtual_keys_of_mouse_buttons() {
    assert_eq!(get_virtual_key_for_mouse_button(0), 0x01);
    assert_eq!(get_virtual_key_for_mouse_button(1), 0x02);
    assert_eq!(get_virtual_key_for_mouse_button(2), 0x04);
    assert_eq!(get_virtual_key_for_mouse_button(3), 0x05);
    assert_eq!(get_virtual_key_for_mouse_button(4), 0x06);
    assert_eq!(get_virtual_key_for_mouse_button(5), 0);
}

#[test]
fn async_key_high_bit_means_down() {
    assert!(is_async_key_down(i16::MIN));
    assert!(is_async_key_down(-32767));
    assert!(is_async_key_down(-1));
    assert!(!is_async_key_down(0));
    assert!(!is_async_key_down(1));
    assert!(!is_async_key_down(0x7FFF));
}

#[test]
fn press_is_reported_once() {
    let mut state = AttachWindow::default();
    state.update_mouse_state([i16::MIN, 0, 0, 0, 0]);
    assert!(state.is_mouse_button_pressed(0));
    assert!(state.is_mouse_button_down(0));
    assert!(!state.is_mouse_button_up(0));
    assert!(!state.is_mouse_button_pressed(1));
    state.update_mouse_state([i16::MIN, 0, 0, 0, 0]);
    assert!(!state.is_mouse_button_pressed(0));
    assert!(state.is_mouse_button_down(0));
    state.update_mouse_state([0, 0, 0, 0, 0]);
    assert!(state.is_mouse_button_released(0));
    assert!(state.is_mouse_button_up(0));
    state.update_mouse_state([0, 0, 0, 0, 0]);
    assert!(!state.is_mouse_button_released(0));
}

#[test]
fn out_of_range_buttons_are_never_reported() {
    let mut state = AttachWindow::default();
    state.update_mouse_state([-1, -1, -1, -1, -1]);
    for b in [-1, 5, i32::MIN, i32::MAX] {
        assert!(!state.is_mouse_button_pressed(b));
        assert!(!state.is_mouse_button_down(b));
        assert!(!state.is_mouse_button_released(b));
        assert!(!state.is_mouse_button_up(b));
    }
    assert!(state.is_mouse_button_pressed(4));
}

#[test]
fn wallpaper_style_strips_decorations_and_adds_child() {
    // WS_VISIBLE | WS_OVERLAPPEDWINDOW
    assert_eq!(wallpaper_style(0x10CF_0000), 0x5000_0000);
    assert_eq!(wallpaper_style(0), 0x4000_0000);
    assert_eq!(wallpaper_style(0x0000_1234), 0x4000_1234);
}

#[test]
fn wallpaper_style_clears_the_upper_half_on_64_bit() {
    if isize::BITS == 64 {
        assert_eq!(wallpaper_style(-1), 0xFF30_FFFF);
    }
}

#[test]
fn wallpaper_ex_style_adds_layered_and_static_edge() {
    assert_eq!(wallpaper_ex_style(0, false), 0x0008_0000);
    assert_eq!(wallpaper_ex_style(0, true), 0x000A_0000);
    assert_eq!(wallpaper_ex_style(0x0000_0008, true), 0x000A_0008);
}

#[test]
fn initialize_with_direct_workerw_is_24h2() {
    let state = AttachWindow::initialize(1, Some(2), Some(3));
    assert_eq!(state.progman_window_handle, Some(1));
    assert_eq!(state.shell_view_window_handle, Some(2));
    assert_eq!(state.workerw_window_handle, Some(3));
    assert!(!state.is_pre_24h2);
    assert!(!state.needs_workerw_search());
    assert!(state.finish_initialize().is_some());
}

#[test]
fn initialize_without_workerw_searches_siblings() {
    let mut state = AttachWindow::initialize(1, None, None);
    assert!(state.is_pre_24h2);
    assert!(state.needs_workerw_search());
    assert!(state.workerw_search_visit(false, None));
    assert_eq!(state.workerw_window_handle, None);
    assert!(!state.workerw_search_visit(true, Some(77)));
    assert_eq!(state.workerw_window_handle, Some(77));
    let state = state.finish_initialize().unwrap();
    assert_eq!(state.workerw_window_handle, Some(77));
}

#[test]
fn initialize_fails_without_any_workerw() {
    let mut state = AttachWindow::initialize(1, None, None);
    assert!(!state.workerw_search_visit(true, None));
    assert!(state.finish_initialize().is_none());
}

#[test]
fn configure_without_progman_does_nothing() {
    let mut state = AttachWindow::default();
    assert_eq!(state.configure_wallpaper_window(42, true), None);
    assert_eq!(state.engine_window_handle, None);
    assert_eq!(state.selected_monitor, None);
}

#[test]
fn configure_before_24h2_reparents_to_workerw() {
    let mut state = AttachWindow::initialize(1, Some(2), None);
    let _ = state.workerw_search_visit(true, Some(3));
    let commands = state.configure_wallpaper_window(9, false).unwrap();
    assert_eq!(
        commands,
        vec![
            WindowCommand::SetParent { child: 9, parent: Some(3) },
            WindowCommand::MakeChildStyle { hwnd: 9 },
        ]
    );
    assert_eq!(state.engine_window_handle, Some(9));
}

#[test]
fn configure_before_24h2_adds_the_static_edge() {
    let mut state = AttachWindow::initialize(1, Some(2), None);
    let _ = state.workerw_search_visit(true, Some(3));
    let commands = state.configure_wallpaper_window(9, true).unwrap();
    assert_eq!(
        commands,
        vec![
            WindowCommand::SetParent { child: 9, parent: Some(3) },
            WindowCommand::MakeChildStyle { hwnd: 9 },
            WindowCommand::AddStaticEdge { hwnd: 9 },
        ]
    );
}

#[test]
fn static_edge_ex_style_sets_only_the_edge() {
    assert_eq!(static_edge_ex_style(0), 0x0002_0000);
    assert_eq!(static_edge_ex_style(0x0008_0100), 0x000A_0100);
    assert_eq!(static_edge_ex_style(0x0002_0000), 0x0002_0000);
}

#[test]
fn configure_24h2_layers_below_icons_above_workerw() {
    let mut state = AttachWindow::initialize(1, Some(2), Some(3));
    let commands = state.configure_wallpaper_window(9, true).unwrap();
    assert_eq!(
        commands,
        vec![
            WindowCommand::MakeChildStyle { hwnd: 9 },
            WindowCommand::MakeLayeredExStyle { hwnd: 9, static_edge_mode: true },
            WindowCommand::MakeOpaque { hwnd: 9 },
            WindowCommand::SetParent { child: 9, parent: Some(1) },
            WindowCommand::PlaceBelow { hwnd: 9, above: 2 },
            WindowCommand::PlaceBelow { hwnd: 3, above: 9 },
        ]
    );
}

#[test]
fn configure_24h2_without_icons_view() {
    let mut state = AttachWindow::initialize(1, None, Some(3));
    let commands = state.configure_wallpaper_window(9, false).unwrap();
    assert_eq!(commands.len(), 5);
    assert_eq!(commands[4], WindowCommand::PlaceBelow { hwnd: 3, above: 9 });
}

#[test]
fn placement_covers_the_monitor() {
    let mut state = attached_24h2();
    let m = monitor(1920, 0, 2560, 1440);
    let p = state.place_wallpaper_window(&m, false, 2, 2);
    assert_eq!(p, WindowPlacement { x: 1920, y: 0, width: 2560, height: 1440 });
    assert_eq!(state.selected_monitor, Some(m));
}

#[test]
fn static_edge_placement_hides_the_border() {
    let mut state = attached_24h2();
    let p = state.place_wallpaper_window(&monitor(0, 0, 1920, 1080), true, 2, 3);
    assert_eq!(p, WindowPlacement { x: -2, y: -3, width: 1924, height: 1086 });
}

#[test]
fn monitors_are_moved_to_the_desktop_origin() {
    let mut state = AttachWindow::default();
    let found: Result<Vec<MonitorInfo>, ()> =
        Ok(vec![monitor(0, 0, 1920, 1080), monitor(-1280, -200, 1280, 1024)]);
    let monitors = state.enumerate_monitors(found).unwrap();
    assert_eq!(state.desktop_x, -1280);
    assert_eq!(state.desktop_y, -200);
    assert_eq!(monitors[0].x, 1280);
    assert_eq!(monitors[0].y, 200);
    assert_eq!(monitors[1].x, 0);
    assert_eq!(monitors[1].y, 0);
    assert_eq!(monitors[1].width, 1280);
    assert_eq!(monitors[0].work_height, 1040);
}

#[test]
fn no_monitors_is_an_error() {
    let mut state = AttachWindow::default();
    state.desktop_x = 5;
    assert_eq!(state.enumerate_monitors::<()>(Ok(vec![])), Err(MonitorError::NoMonitors));
    assert_eq!(state.desktop_x, 5);
    assert_eq!(state.desktop_y, 0);
    assert_eq!(
        state.get_wallpaper_target::<()>(None, Ok(vec![]), 1920, 1080),
        Err(MonitorError::NoMonitors)
    );
}

#[test]
fn failed_enumeration_keeps_the_state() {
    let mut state = AttachWindow::default();
    state.desktop_x = 5;
    assert_eq!(state.enumerate_monitors(Err("failed")), Err(MonitorError::Enumeration("failed")));
    assert_eq!(state.desktop_x, 5);
    assert_eq!(
        state.get_wallpaper_target(Some(0), Err(7), 100, 100),
        Err(MonitorError::Enumeration(7))
    );
}

#[test]
fn wallpaper_target_selection() {
    let ms = vec![monitor(0, 0, 1920, 1080), monitor(1920, 0, 1280, 1024)];
    let whole = MonitorInfo {
        x: 0,
        y: 0,
        width: 3200,
        height: 1080,
        work_x: 0,
        work_y: 0,
        work_width: 0,
        work_height: 0,
    };
    assert_eq!(select_wallpaper_target(None, &ms, 3200, 1080), whole);
    assert_eq!(select_wallpaper_target(Some(-1), &ms, 3200, 1080), whole);
    assert_eq!(select_wallpaper_target(Some(2), &ms, 3200, 1080), whole);
    assert_eq!(select_wallpaper_target(Some(1), &ms, 3200, 1080), ms[1]);
    let mut state = AttachWindow::default();
    let target = state
        .get_wallpaper_target::<()>(Some(0), Ok(vec![monitor(-1920, 0, 1920, 1080), monitor(0, 0, 1920, 1080)]), 3840, 1080)
        .unwrap();
    assert_eq!(target.x, 0);
    assert_eq!(state.desktop_x, -1920);
}

#[test]
fn watcher_lifecycle() {
    let mut state = attached_24h2();
    assert_eq!(state.stop_watcher(), Err(WatcherError::NotStarted));
    let targets = state.start_watcher().unwrap();
    assert_eq!(targets, WatcherTargets { shell_def_view: 200, engine: 400, parent: 100 });
    assert!(state.is_watcher_running());
    assert_eq!(state.start_watcher(), Err(WatcherError::AlreadyRunning));
    assert_eq!(state.stop_watcher(), Ok(()));
    assert!(!state.is_watcher_running());
}

#[test]
fn watcher_before_24h2_reparents_to_workerw() {
    let mut state = AttachWindow::initialize(1, Some(2), None);
    let _ = state.workerw_search_visit(true, Some(3));
    let _ = state.configure_wallpaper_window(4, false);
    assert_eq!(state.start_watcher().unwrap().parent, 3);
}

#[test]
fn watcher_error_messages() {
    assert_eq!(WatcherError::AlreadyRunning.message(), "another watcher is working");
    assert_eq!(WatcherError::NotStarted.message(), "Watcher has not yet started");
    assert_eq!(WatcherError::MissingHandles.message(), "required window handles are missing");
}

#[test]
fn watcher_without_handles_fails() {
    let mut state = AttachWindow::initialize(1, Some(2), Some(3));
    assert_eq!(state.start_watcher(), Err(WatcherError::MissingHandles));
    assert!(!state.is_watcher_running());
    let mut state = AttachWindow::initialize(1, None, Some(3));
    let _ = state.configure_wallpaper_window(4, false);
    assert_eq!(state.start_watcher(), Err(WatcherError::MissingHandles));
    assert!(!state.is_watcher_running());
}

#[test]
fn watcher_reparents_whenever_a_workerw_is_found() {
    let targets = WatcherTargets { shell_def_view: 2, engine: 4, parent: 1 };
    assert_eq!(targets.reparent_after_check(true), Some((4, 1)));
    assert_eq!(targets.reparent_after_check(true), Some((4, 1)));
    assert_eq!(targets.reparent_after_check(false), None);
}

#[test]
fn auto_attach_targets_the_virtual_desktop() {
    let mut state = AttachWindow::initialize(1, Some(2), Some(3));
    let found: Result<Vec<MonitorInfo>, ()> =
        Ok(vec![monitor(-1920, 0, 1920, 1080), monitor(0, 0, 1920, 1080)]);
    let plan = state.plan_auto_attach(9, false, found, 3840, 1080, 2, 2).unwrap();
    let whole = MonitorInfo {
        x: 0,
        y: 0,
        width: 3840,
        height: 1080,
        work_x: 0,
        work_y: 0,
        work_width: 0,
        work_height: 0,
    };
    assert_eq!(plan.target, whole);
    assert_eq!(plan.placement, WindowPlacement { x: 0, y: 0, width: 3840, height: 1080 });
    assert_eq!(plan.commands.len(), 6);
    assert_eq!(plan.commands[3], WindowCommand::SetParent { child: 9, parent: Some(1) });
    assert_eq!(state.engine_window_handle, Some(9));
    assert_eq!(state.selected_monitor, Some(whole));
    assert_eq!(state.desktop_x, -1920);
    let mut fresh = AttachWindow::initialize(1, Some(2), Some(3));
    assert!(matches!(
        fresh.plan_auto_attach::<()>(9, true, Ok(vec![]), 3840, 1080, 2, 2),
        Err(MonitorError::NoMonitors)
    ));
    assert_eq!(fresh.engine_window_handle, None);
}

#[test]
fn cleanup_forgets_handles() {
    let mut state = attached_24h2();
    state.desktop_x = 12;
    let steps = state.begin_cleanup();
    assert_eq!(steps, CleanupSteps { join_watcher: false, refresh_wallpaper: true });
    state.cleanup();
    assert_eq!(state.progman_window_handle, None);
    assert_eq!(state.workerw_window_handle, None);
    assert_eq!(state.shell_view_window_handle, None);
    assert_eq!(state.engine_window_handle, None);
    assert_eq!(state.desktop_x, 12);
    assert_eq!(state.begin_cleanup(), CleanupSteps { join_watcher: false, refresh_wallpaper: false });
}

#[test]
fn cleanup_ends_a_running_watcher() {
    let mut state = attached_24h2();
    let _ = state.start_watcher().unwrap();
    let steps = state.begin_cleanup();
    assert!(steps.join_watcher);
    assert!(!state.is_watcher_running());
    assert_eq!(state.engine_window_handle, Some(400));
    state.cleanup();
    assert!(!state.is_watcher_running());
    assert_eq!(state.stop_watcher(), Err(WatcherError::NotStarted));
}

#[test]
fn workerw_search_failure_counts_only_without_workerw() {
    let mut state = AttachWindow::initialize(1, Some(2), None);
    assert_eq!(state.workerw_search_outcome::<i32>(Ok(())), Ok(()));
    assert_eq!(state.workerw_search_outcome(Err(5)), Err(5));
    assert!(!state.workerw_search_visit(true, Some(3)));
    assert_eq!(state.workerw_search_outcome(Err(5)), Ok(()));
}

#[test]
fn cursor_relative_to_selected_monitor() {
    let mut state = attached_24h2();
    let _ = state.enumerate_monitors::<()>(Ok(vec![monitor(-1920, 0, 1920, 1080), monitor(0, 0, 1920, 1080)]));
    let _ = state.place_wallpaper_window(&monitor(1920, 0, 1920, 1080), false, 0, 0);
    let cursor = Some(Point { x: 100, y: 50 });
    assert_eq!(state.get_relative_cursor_pos(cursor), Some(Point { x: 100, y: 50 }));
    let cursor = Some(Point { x: -1900, y: 70 });
    assert_eq!(state.get_mouse_x(cursor), -1900);
    assert_eq!(state.get_mouse_y(cursor), 70);
    assert_eq!(state.get_mouse_x(None), 0);
    assert_eq!(state.get_mouse_y(None), 0);
}

#[test]
fn cursor_without_selected_monitor_is_unknown() {
    let state = AttachWindow::default();
    assert_eq!(state.get_relative_cursor_pos(Some(Point { x: 1, y: 2 })), None);
    assert_eq!(state.get_mouse_x(Some(Point { x: 1, y: 2 })), 0);
}

#[test]
fn capabilities() {
    assert!(AttachWindow::supports_dynamic_wallpaper());
    assert!(AttachWindow::supports_multi_monitor());
}

