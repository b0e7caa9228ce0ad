//! Free-function interface over [`GlobalVariables`]: initialisation, monitors, attaching
//! the engine window, desktop state and mouse input. Win32 failures are ignored here
//! except where initialisation reports them, and the cursor is read with `GetCursorPos`.
use crate::platform::windows::attach::{
    button_down, button_in_range, button_pressed, button_released, Point, WindowCommand,
    WindowPlacement,
};
use crate::platform::windows::constants::ERROR_INSUFFICIENT_BUFFER;
use crate::platform::windows::functions::{
    spec_is_desktop_locked, spec_is_secure_desktop,
};
use crate::platform::windows::models::{
    monitors_normalizable, normalized_monitors, position_offsets_fit, same_except_handles,
    same_handles, spec_attach_commands, spec_min_x, spec_min_y, spec_relative_position,
    GlobalVariables, MonitorInfo, WindowsPlatform,
};
use vstd::prelude::*;

verus! {

/// The state after locating the desktop hierarchy: `Progman`, the icons view and the
/// lookup of the `WorkerW` under `Progman`, whose error (after marking the system as older
/// than 24H2) is handed back instead of a state.
pub fn initialize<E>(progman: isize, shell_view: Option<isize>, workerw: Result<isize, E>) -> (r:
    Result<GlobalVariables, E>)
    ensures
        match workerw {
            Ok(w) => r matches Ok(g) && {
                &&& g.progman_window_handle == Some(progman)
                &&& g.shell_view_whidow_handle == shell_view
                &&& g.workerw_window_handle == Some(w)
                &&& g.engine_window_handle is None
                &&& g.selected_monitor is None
                &&& g.desktop_x == 0 && g.desktop_y == 0
                &&& g.current_mouse_state@ == seq![false, false, false, false, false]
                &&& g.previous_mouse_state@ == seq![false, false, false, false, false]
                &&& !g.is_pre_24h2
            },
            Err(e) => r == Err::<GlobalVariables, E>(e),
        },
{
    let mut global_variables = WindowsPlatform::default();
    match global_variables.initialize(progman, shell_view, workerw) {
        Ok(()) => Ok(global_variables),
        Err(e) => Err(e),
    }
}

/// Forgets the desktop hierarchy and the engine window when an engine window was
/// configured (after the wallpaper was refreshed).
pub fn cleanup(g: &mut GlobalVariables)
    ensures
        old(g).engine_window_handle is Some ==> {
            &&& final(g).progman_window_handle is None
            &&& final(g).workerw_window_handle is None
            &&& final(g).shell_view_whidow_handle is None
            &&& final(g).engine_window_handle is None
            &&& same_except_handles(*final(g), *old(g))
        },
        old(g).engine_window_handle is None ==> *final(g) == *old(g),
{
    g.cleanup();
}

/// Records the virtual desktop origin and returns the monitors moved so that it is
/// `(0, 0)`.
pub fn enumerate_monitors(g: &mut GlobalVariables, monitors: Vec<MonitorInfo>) -> (r: Vec<MonitorInfo>)
    requires
        monitors_normalizable(monitors@),
    ensures
        r@ == normalized_monitors(monitors@),
        final(g).desktop_x == spec_min_x(monitors@),
        final(g).desktop_y == spec_min_y(monitors@),
        same_handles(*final(g), *old(g)),
        final(g).selected_monitor == old(g).selected_monitor,
        final(g).current_mouse_state@ == old(g).current_mouse_state@,
        final(g).previous_mouse_state@ == old(g).previous_mouse_state@,
        final(g).is_pre_24h2 == old(g).is_pre_24h2,
{
    g.enumerate_monitors(monitors)
}

/// Records `hwnd` as the engine window; when `Progman` is known, also selects `monitor`
/// and returns the attach operations, in order, and the placement that covers `monitor`
/// exactly. Failures of the operations are ignored.
pub fn configure_wallpaper_window(hwnd: isize, monitor: &MonitorInfo, g: &mut GlobalVariables) -> (r:
    Option<(Vec<WindowCommand>, WindowPlacement)>)
    ensures
        final(g).engine_window_handle == Some(hwnd),
        final(g).progman_window_handle == old(g).progman_window_handle,
        final(g).workerw_window_handle == old(g).workerw_window_handle,
        final(g).shell_view_whidow_handle == old(g).shell_view_whidow_handle,
        final(g).desktop_x == old(g).desktop_x,
        final(g).desktop_y == old(g).desktop_y,
        final(g).current_mouse_state@ == old(g).current_mouse_state@,
        final(g).previous_mouse_state@ == old(g).previous_mouse_state@,
        final(g).is_pre_24h2 == old(g).is_pre_24h2,
        old(g).progman_window_handle is None ==> r is None && final(g).selected_monitor == old(
            g,
        ).selected_monitor,
        old(g).progman_window_handle is Some ==> {
            &&& final(g).selected_monitor == Some(*monitor)
            &&& r matches Some(plan) && plan.0@ == spec_attach_commands(*old(g), hwnd) && plan.1
                == (WindowPlacement {
                x: monitor.x,
                y: monitor.y,
                width: monitor.width,
                height: monitor.height,
            })
        },
{
    g.engine_window_handle = Some(hwnd);
    if g.progman_window_handle.is_none() {
        return None;
    }
    let mut commands: Vec<WindowCommand> = Vec::new();
    if g.is_pre_24h2 {
        commands.push(WindowCommand::SetParent { child: hwnd, parent: g.workerw_window_handle });
        commands.push(WindowCommand::MakeChildStyle { hwnd });
    } else {
        commands.push(WindowCommand::MakeChildStyle { hwnd });
        commands.push(WindowCommand::MakeLayeredExStyle { hwnd, static_edge_mode: false });
        commands.push(WindowCommand::SetParent { child: hwnd, parent: g.progman_window_handle });
        if let Some(shell) = g.shell_view_whidow_handle {
            commands.push(WindowCommand::PlaceBelow { hwnd, above: shell });
        }
        if let Some(workerw) = g.workerw_window_handle {
            commands.push(WindowCommand::PlaceBelow { hwnd: workerw, above: hwnd });
        }
    }
    assert(commands@ =~= spec_attach_commands(*old(g), hwnd));
    g.selected_monitor = Some(*monitor);
    let placement = WindowPlacement {
        x: monitor.x,
        y: monitor.y,
        width: monitor.width,
        height: monitor.height,
    };
    Some((commands, placement))
}

/// The target that spans the whole virtual desktop.
pub open spec fn virtual_desktop_target(virtual_width: i32, virtual_height: i32) -> MonitorInfo {
    MonitorInfo { x: 0, y: 0, width: virtual_width, height: virtual_height, work_width: 0, work_height: 0 }
}

/// Picks the monitor to cover: the monitor at `monitor_index` among the enumerated ones
/// (enumeration also records the desktop origin), or the whole virtual desktop
/// (`virtual_width` x `virtual_height`) for a negative or out-of-range index.
pub fn get_wallpaper_target(
    g: &mut GlobalVariables,
    monitor_index: i32,
    monitors: Vec<MonitorInfo>,
    virtual_width: i32,
    virtual_height: i32,
) -> (r: MonitorInfo)
    requires
        monitors_normalizable(monitors@),
    ensures
        r == if 0 <= monitor_index < monitors@.len() {
            normalized_monitors(monitors@)[monitor_index as int]
        } else {
            virtual_desktop_target(virtual_width, virtual_height)
        },
        final(g).desktop_x == spec_min_x(monitors@),
        final(g).desktop_y == spec_min_y(monitors@),
        same_handles(*final(g), *old(g)),
        final(g).selected_monitor == old(g).selected_monitor,
        final(g).current_mouse_state@ == old(g).current_mouse_state@,
        final(g).previous_mouse_state@ == old(g).previous_mouse_state@,
        final(g).is_pre_24h2 == old(g).is_pre_24h2,
{
    let monitors = enumerate_monitors(g, monitors);
    if monitor_index < 0 || monitor_index as usize >= monitors.len() {
        let mut info = MonitorInfo::default();
        info.x = 0;
        info.y = 0;
        info.width = virtual_width;
        info.height = virtual_height;
        info
    } else {
        monitors[monitor_index as usize]
    }
}

/// Size of the UTF-16 buffer for the input desktop's name, given the outcome of the size
/// query; `None` means the session is treated as secure. Here a *successful* size query
/// whose last error is not `ERROR_INSUFFICIENT_BUFFER` counts as a failure, and so does a
/// reported size of zero.
pub open spec fn spec_desktop_name_buffer_len(size_query_succeeded: bool, last_error: u32, bytes: u32) -> Option<nat> {
    if size_query_succeeded && last_error != ERROR_INSUFFICIENT_BUFFER {
        None
    } else if bytes == 0 {
        None
    } else {
        Some((bytes / 2 + 1) as nat)
    }
}

/// Decides how large a buffer to read the input desktop's name into.
pub fn desktop_name_buffer_len(size_query_succeeded: bool, last_error: u32, bytes: u32) -> (r: Option<usize>)
    ensures
        r matches Some(n) ==> spec_desktop_name_buffer_len(size_query_succeeded, last_error, bytes) == Some(n as nat),
        r is None ==> spec_desktop_name_buffer_len(size_query_succeeded, last_error, bytes) is None,
{
    if size_query_succeeded && last_error != ERROR_INSUFFICIENT_BUFFER {
        return None;
    }
    if bytes == 0 {
        return None;
    }
    Some((bytes / 2) as usize + 1)
}

/// Whether the session is on a secure desktop, from the name of the input desktop
/// (`None` when it could not be read): any name other than `Default` (ASCII case and
/// trailing NULs ignored) is secure.
pub fn is_secure_desktop(input_desktop_name: Option<&str>) -> (r: bool)
    ensures
        r == spec_is_secure_desktop(
            match input_desktop_name {
                Some(n) => Some(n@),
                None => None,
            },
        ),
{
    crate::platform::windows::functions::is_secure_desktop(input_desktop_name)
}

/// Whether the desktop is locked: on a secure desktop, or with `LockApp.exe` owning the
/// foreground window.
pub fn is_desktop_locked(secure_desktop: bool, foreground_image_file_name: Option<&str>) -> (r: bool)
    ensures
        r == spec_is_desktop_locked(
            secure_desktop,
            match foreground_image_file_name {
                Some(n) => Some(n@),
                None => None,
            },
        ),
{
    crate::platform::windows::functions::is_desktop_locked(secure_desktop, foreground_image_file_name)
}

/// Starts a new input frame in which every button reads as held.
pub fn update_mouse_state(g: &mut GlobalVariables)
    ensures
        final(g).previous_mouse_state@ == old(g).current_mouse_state@,
        final(g).current_mouse_state@ == seq![true, true, true, true, true],
        same_handles(*final(g), *old(g)),
        final(g).selected_monitor == old(g).selected_monitor,
        final(g).desktop_x == old(g).desktop_x,
        final(g).desktop_y == old(g).desktop_y,
        final(g).is_pre_24h2 == old(g).is_pre_24h2,
{
    g.update_mouse_state();
}

/// True when `button` went from released to pressed between the last two samples.
pub fn is_mouse_button_pressed(button: i32, g: &GlobalVariables) -> (r: bool)
    ensures
        r == button_pressed(g.current_mouse_state@, g.previous_mouse_state@, button),
{
    g.is_mouse_button_pressed(button)
}

/// True while `button` is held down in the latest sample.
pub fn is_mouse_button_donw(button: i32, g: &GlobalVariables) -> (r: bool)
    ensures
        r == button_down(g.current_mouse_state@, button),
{
    g.is_mouse_button_donw(button)
}

/// True when `button` went from pressed to released between the last two samples.
pub fn is_mouse_button_released(button: i32, g: &GlobalVariables) -> (r: bool)
    ensures
        r == button_released(g.current_mouse_state@, g.previous_mouse_state@, button),
{
    g.is_mouse_button_released(button)
}

/// True while `button`, which must be a tracked button, is not held down.
pub fn is_mouse_button_up(button: i32, g: &GlobalVariables) -> (r: bool)
    requires
        button_in_range(button),
    ensures
        r == !g.current_mouse_state[button as int],
{
    g.is_mouse_button_up(button)
}

/// The cursor position `cursor` (what `GetCursorPos` gave, `None` if it failed) relative
/// to the selected monitor.
pub fn get_relative_cursor_pos(cursor: Option<Point>, g: &GlobalVariables) -> (r: Option<Point>)
    requires
        position_offsets_fit(*g, cursor),
    ensures
        r == spec_relative_position(*g, cursor),
{
    g.get_relative_cursor_pos(cursor)
}

/// The relative x of the cursor, or 0 when it could not be read.
pub fn get_mouse_x(cursor: Option<Point>, g: &GlobalVariables) -> (r: i32)
    requires
        position_offsets_fit(*g, cursor),
    ensures
        r == match spec_relative_position(*g, cursor) {
            Some(p) => p.x,
            None => 0,
        },
{
    g.get_mouse_x(cursor)
}

/// The relative y of the cursor, or 0 when it could not be read.
pub fn get_mouse_y(cursor: Option<Point>, g: &GlobalVariables) -> (r: i32)
    requires
        position_offsets_fit(*g, cursor),
    ensures
        r == match spec_relative_position(*g, cursor) {
            Some(p) => p.y,
            None => 0,
        },
{
    g.get_mouse_y(cursor)
}

/// The engine supports animated wallpapers.
pub fn supports_dynamuc_wallpaper() -> (r: bool)
    ensures
        r,
{
    true
}

/// The engine supports several monitors.
pub fn supports_multi_monito() -> (r: bool)
    ensures
        r,
{
    true
}

/// Whether a window is cloaked, from its `DWMWA_CLOAKED` attribute (`None` when it could
/// not be read).
pub fn is_invisible_win10_background_app_window(cloaked_attribute: Option<u32>) -> (r: bool)
    ensures
        r == (cloaked_attribute matches Some(v) && v != 0),
{
    crate::platform::windows::functions::is_invisible_win10_background_app_window(cloaked_attribute)
}

} // verus!
