//! What the enumeration callbacks and low-level input hooks decide: which top-level
//! windows occlude the wallpaper monitor and where, what a monitor's bounds are, and
//! which captured input becomes an event.
use crate::platform::windows::attach::{fits_i32, AttachWindow, FullscreenOcclusionData, MonitorInfo, Point, Rect};
use crate::platform::windows::constants::{
    HC_ACTION, LLKHF_INJECTED, LLMHF_INJECTED, WM_KEYDOWN, WM_KEYUP, WM_LBUTTONDOWN, WM_LBUTTONUP,
    WM_MBUTTONDOWN, WM_MBUTTONUP, WM_MOUSEMOVE, WM_MOUSEWHEEL, WM_RBUTTONDOWN, WM_RBUTTONUP,
};
use crate::platform::windows::functions::str_equals;
use crate::platform::windows::models::{
    FullscrennOcclusionData, MonitorInfo as ModelMonitorInfo, WindowsPlatform,
};
use crate::platform::windows::mouse::{spec_posted_message, Events};
use vstd::prelude::*;

verus! {

/// The larger of two integers.
pub open spec fn max_int(a: int, b: int) -> int {
    if a < b {
        b
    } else {
        a
    }
}

/// The smaller of two integers.
pub open spec fn min_int(a: int, b: int) -> int {
    if a < b {
        a
    } else {
        b
    }
}

/// The intersection of two rectangles, `None` when it is empty (what Win32's
/// `IntersectRect` computes, reporting an empty intersection as failure).
pub open spec fn spec_intersect_rect(a: Rect, b: Rect) -> Option<Rect> {
    let left = max_int(a.left as int, b.left as int);
    let top = max_int(a.top as int, b.top as int);
    let right = min_int(a.right as int, b.right as int);
    let bottom = min_int(a.bottom as int, b.bottom as int);
    if left < right && top < bottom {
        Some(Rect { left: left as i32, top: top as i32, right: right as i32, bottom: bottom as i32 })
    } else {
        None
    }
}

/// The intersection of two rectangles, `None` when it is empty.
pub fn intersect_rect(a: &Rect, b: &Rect) -> (r: Option<Rect>)
    ensures
        r == spec_intersect_rect(*a, *b),
{
    let left = if a.left < b.left { b.left } else { a.left };
    let top = if a.top < b.top { b.top } else { a.top };
    let right = if a.right < b.right { a.right } else { b.right };
    let bottom = if a.bottom < b.bottom { a.bottom } else { b.bottom };
    if left < right && top < bottom {
        Some(Rect { left, top, right, bottom })
    } else {
        None
    }
}

/// A non-empty intersection lies within both rectangles, and a point lies in it exactly
/// when it lies in both.
pub proof fn lemma_intersection_within(a: Rect, b: Rect, x: int, y: int)
    ensures
        spec_intersect_rect(a, b) matches Some(r) ==> {
            &&& a.left <= r.left && r.right <= a.right && a.top <= r.top && r.bottom <= a.bottom
            &&& b.left <= r.left && r.right <= b.right && b.top <= r.top && r.bottom <= b.bottom
            &&& r.left < r.right && r.top < r.bottom
        },
        (spec_intersect_rect(a, b) matches Some(r) && r.left <= x < r.right && r.top <= y < r.bottom)
            <==> (a.left <= x < a.right && a.top <= y < a.bottom && b.left <= x < b.right && b.top <= y
            < b.bottom),
{
}

/// The rectangle that `monitor` covers.
pub open spec fn monitor_rect(m: MonitorInfo) -> Rect {
    Rect { left: m.x, top: m.y, right: (m.x + m.width) as i32, bottom: (m.y + m.height) as i32 }
}

/// A rectangle moved by `(-dx, -dy)`.
pub open spec fn translated(r: Rect, dx: i32, dy: i32) -> Rect {
    Rect {
        left: (r.left - dx) as i32,
        top: (r.top - dy) as i32,
        right: (r.right - dx) as i32,
        bottom: (r.bottom - dy) as i32,
    }
}

/// What the enumeration callback learned about a top-level window.
#[derive(Debug)]
pub struct TopLevelWindow {
    pub hwnd: isize,
    /// `IsWindowVisible`.
    pub is_visible: bool,
    /// `IsIconic` (minimized).
    pub is_iconic: bool,
    /// Whether it is `GetShellWindow()`.
    pub is_shell_window: bool,
    /// Its window class name.
    pub class_name: String,
    /// Whether it is cloaked (`is_invisible_win10_background_app_window`).
    pub is_cloaked: bool,
    /// `GetWindowRect`, `None` when it failed.
    pub window_rect: Option<Rect>,
}

/// Windows that never count as occluding the wallpaper: the engine and `WorkerW`
/// themselves, invisible or minimized windows, the shell window, `WorkerW` windows, the
/// Nvidia overlay (`CEF-OSC-WIDGET`) and cloaked background apps.
pub open spec fn ignored_for_occlusion(engine: Option<isize>, workerw: Option<isize>, w: TopLevelWindow) -> bool {
    ||| engine == Some(w.hwnd)
    ||| workerw == Some(w.hwnd)
    ||| !w.is_visible
    ||| w.is_iconic
    ||| w.is_shell_window
    ||| w.class_name@ == "WorkerW"@
    ||| w.class_name@ == "CEF-OSC-WIDGET"@
    ||| w.is_cloaked
}

/// Whether the window's rectangle stays in the `i32` range when moved into desktop
/// coordinates.
pub open spec fn window_rect_fits(desktop_x: i32, desktop_y: i32, w: TopLevelWindow) -> bool {
    w.window_rect matches Some(r) ==> {
        &&& fits_i32(r.left - desktop_x)
        &&& fits_i32(r.right - desktop_x)
        &&& fits_i32(r.top - desktop_y)
        &&& fits_i32(r.bottom - desktop_y)
    }
}

/// Whether the occlusion geometry of a window stays in the `i32` range: for a window that
/// is not skipped and whose rectangle was read, its rectangle moved into desktop
/// coordinates and the far edges (`monitor_right`, `monitor_bottom`) of the monitor.
/// Skipped windows involve no arithmetic.
pub open spec fn occlusion_geometry_fits(
    engine: Option<isize>,
    workerw: Option<isize>,
    desktop_x: i32,
    desktop_y: i32,
    monitor_right: int,
    monitor_bottom: int,
    w: TopLevelWindow,
) -> bool {
    !ignored_for_occlusion(engine, workerw, w) && w.window_rect is Some ==> {
        &&& window_rect_fits(desktop_x, desktop_y, w)
        &&& fits_i32(monitor_right)
        &&& fits_i32(monitor_bottom)
    }
}

/// Whether a window is skipped by the occlusion scan, before any geometry is computed.
pub fn is_ignored_for_occlusion(engine: Option<isize>, workerw: Option<isize>, window: &TopLevelWindow) -> (r: bool)
    ensures
        r == ignored_for_occlusion(engine, workerw, *window),
{
    if engine == Some(window.hwnd) || workerw == Some(window.hwnd) {
        return true;
    }
    if !window.is_visible || window.is_iconic || window.is_shell_window {
        return true;
    }
    let class_name = window.class_name.as_str();
    str_equals(class_name, "WorkerW") || str_equals(class_name, "CEF-OSC-WIDGET") || window.is_cloaked
}

/// Whether the occlusion geometry of `window` on the monitor at `(monitor_x, monitor_y)`
/// of size `monitor_width` x `monitor_height` stays in the `i32` range (what recording
/// the window requires).
pub fn occlusion_geometry_in_range(
    engine: Option<isize>,
    workerw: Option<isize>,
    desktop_x: i32,
    desktop_y: i32,
    monitor_x: i32,
    monitor_y: i32,
    monitor_width: i32,
    monitor_height: i32,
    window: &TopLevelWindow,
) -> (r: bool)
    ensures
        r == occlusion_geometry_fits(
            engine,
            workerw,
            desktop_x,
            desktop_y,
            monitor_x + monitor_width,
            monitor_y + monitor_height,
            *window,
        ),
{
    if is_ignored_for_occlusion(engine, workerw, window) {
        return true;
    }
    match window.window_rect {
        None => true,
        Some(r) => {
            let lo = i32::MIN as i64;
            let hi = i32::MAX as i64;
            let l = r.left as i64 - desktop_x as i64;
            let rt = r.right as i64 - desktop_x as i64;
            let t = r.top as i64 - desktop_y as i64;
            let b = r.bottom as i64 - desktop_y as i64;
            let mr = monitor_x as i64 + monitor_width as i64;
            let mb = monitor_y as i64 + monitor_height as i64;
            lo <= l && l <= hi && lo <= rt && rt <= hi && lo <= t && t <= hi && lo <= b && b <= hi
                && lo <= mr && mr <= hi && lo <= mb && mb <= hi
        },
    }
}

/// The part of `area` that `w` occludes, if any: its rectangle, moved into desktop
/// coordinates, intersected with `area`.
pub open spec fn spec_occluded_part(
    engine: Option<isize>,
    workerw: Option<isize>,
    desktop_x: i32,
    desktop_y: i32,
    area: Rect,
    w: TopLevelWindow,
) -> Option<Rect> {
    if ignored_for_occlusion(engine, workerw, w) {
        None
    } else {
        match w.window_rect {
            None => None,
            Some(r) => spec_intersect_rect(translated(r, desktop_x, desktop_y), area),
        }
    }
}

/// Decides what part of `area` an enumerated top-level window occludes.
pub fn occluded_part(
    engine: Option<isize>,
    workerw: Option<isize>,
    desktop_x: i32,
    desktop_y: i32,
    area: &Rect,
    window: &TopLevelWindow,
) -> (r: Option<Rect>)
    requires
        !ignored_for_occlusion(engine, workerw, *window) && window.window_rect is Some
            ==> window_rect_fits(desktop_x, desktop_y, *window),
    ensures
        r == spec_occluded_part(engine, workerw, desktop_x, desktop_y, *area, *window),
{
    if is_ignored_for_occlusion(engine, workerw, window) {
        return None;
    }
    match window.window_rect {
        None => None,
        Some(r) => {
            let desktop_rect = Rect {
                left: r.left - desktop_x,
                top: r.top - desktop_y,
                right: r.right - desktop_x,
                bottom: r.bottom - desktop_y,
            };
            intersect_rect(&desktop_rect, area)
        },
    }
}

/// Every occluded part lies within the sampled area, and the engine window, the
/// `WorkerW` and windows that are not shown never occlude.
pub proof fn lemma_occluded_part_within_area(
    engine: Option<isize>,
    workerw: Option<isize>,
    desktop_x: i32,
    desktop_y: i32,
    area: Rect,
    w: TopLevelWindow,
)
    ensures
        spec_occluded_part(engine, workerw, desktop_x, desktop_y, area, w) matches Some(r) ==> {
            &&& area.left <= r.left && r.right <= area.right
            &&& area.top <= r.top && r.bottom <= area.bottom
        },
        engine == Some(w.hwnd) ==> spec_occluded_part(engine, workerw, desktop_x, desktop_y, area, w) is None,
        workerw == Some(w.hwnd) ==> spec_occluded_part(engine, workerw, desktop_x, desktop_y, area, w) is None,
        !w.is_visible || w.is_iconic || w.is_cloaked ==> spec_occluded_part(
            engine,
            workerw,
            desktop_x,
            desktop_y,
            area,
            w,
        ) is None,
{
}

/// What an eligible window occludes, point by point: a point of the sampled area (in
/// desktop coordinates) is in the recorded part exactly when it lies in the area and the
/// same point in screen coordinates (moved back by the desktop origin) lies in the
/// window's rectangle. Skipped windows and windows whose rectangle could not be read
/// occlude nothing.
pub proof fn lemma_occluded_part_points(
    engine: Option<isize>,
    workerw: Option<isize>,
    desktop_x: i32,
    desktop_y: i32,
    area: Rect,
    w: TopLevelWindow,
    x: int,
    y: int,
)
    requires
        !ignored_for_occlusion(engine, workerw, w) && w.window_rect is Some ==> window_rect_fits(
            desktop_x,
            desktop_y,
            w,
        ),
    ensures
        ignored_for_occlusion(engine, workerw, w) || w.window_rect is None ==> spec_occluded_part(
            engine,
            workerw,
            desktop_x,
            desktop_y,
            area,
            w,
        ) is None,
        !ignored_for_occlusion(engine, workerw, w) && w.window_rect is Some ==> ({
            let r = w.window_rect->0;
            let part = spec_occluded_part(engine, workerw, desktop_x, desktop_y, area, w);
            (part is Some && part->0.left <= x < part->0.right && part->0.top <= y < part->0.bottom)
                <==> (area.left <= x < area.right && area.top <= y < area.bottom && r.left <= x
                + desktop_x < r.right && r.top <= y + desktop_y < r.bottom)
        }),
{
    if !ignored_for_occlusion(engine, workerw, w) && w.window_rect is Some {
        let r = w.window_rect->0;
        let t = translated(r, desktop_x, desktop_y);
        assert(t.left == r.left - desktop_x && t.right == r.right - desktop_x);
        assert(t.top == r.top - desktop_y && t.bottom == r.bottom - desktop_y);
        lemma_intersection_within(t, area, x, y);
    }
}

/// Moving a window and the desktop origin together does not change what it occludes:
/// the recorded part depends on the window's position relative to the desktop origin
/// only, on both axes.
pub proof fn lemma_occluded_part_moves_with_origin(
    engine: Option<isize>,
    workerw: Option<isize>,
    desktop_x: i32,
    desktop_y: i32,
    shifted_x: i32,
    shifted_y: i32,
    area: Rect,
    w: TopLevelWindow,
    moved: TopLevelWindow,
)
    requires
        w.window_rect is Some,
        moved.window_rect is Some,
        moved.hwnd == w.hwnd,
        moved.is_visible == w.is_visible,
        moved.is_iconic == w.is_iconic,
        moved.is_shell_window == w.is_shell_window,
        moved.class_name@ == w.class_name@,
        moved.is_cloaked == w.is_cloaked,
        moved.window_rect->0.left - w.window_rect->0.left == shifted_x - desktop_x,
        moved.window_rect->0.right - w.window_rect->0.right == shifted_x - desktop_x,
        moved.window_rect->0.top - w.window_rect->0.top == shifted_y - desktop_y,
        moved.window_rect->0.bottom - w.window_rect->0.bottom == shifted_y - desktop_y,
        window_rect_fits(desktop_x, desktop_y, w),
        window_rect_fits(shifted_x, shifted_y, moved),
    ensures
        spec_occluded_part(engine, workerw, shifted_x, shifted_y, area, moved) == spec_occluded_part(
            engine,
            workerw,
            desktop_x,
            desktop_y,
            area,
            w,
        ),
{
    let a = translated(w.window_rect->0, desktop_x, desktop_y);
    let b = translated(moved.window_rect->0, shifted_x, shifted_y);
    assert(a == b);
}

impl FullscreenOcclusionData {
    /// An empty collection for `monitor`.
    pub fn new(monitor: MonitorInfo) -> (r: Self)
        ensures
            r.monitor == monitor,
            r.occluded_rects@.len() == 0,
    {
        FullscreenOcclusionData { monitor, occluded_rects: Vec::new() }
    }

    /// Handles one enumerated top-level window: unless it is skipped, the part of the
    /// monitor that it covers (its rectangle moved into desktop coordinates) is recorded.
    /// Skipped windows are left before any geometry is computed.
    pub fn record_window(&mut self, platform: &AttachWindow, window: &TopLevelWindow)
        requires
            occlusion_geometry_fits(
                platform.engine_window_handle,
                platform.workerw_window_handle,
                platform.desktop_x,
                platform.desktop_y,
                old(self).monitor.x + old(self).monitor.width,
                old(self).monitor.y + old(self).monitor.height,
                *window,
            ),
        ensures
            final(self).monitor == old(self).monitor,
            final(self).occluded_rects@ == match spec_occluded_part(
                platform.engine_window_handle,
                platform.workerw_window_handle,
                platform.desktop_x,
                platform.desktop_y,
                monitor_rect(old(self).monitor),
                *window,
            ) {
                Some(part) => old(self).occluded_rects@.push(part),
                None => old(self).occluded_rects@,
            },
    {
        if is_ignored_for_occlusion(platform.engine_window_handle, platform.workerw_window_handle, window)
            || window.window_rect.is_none() {
            return;
        }
        let area = Rect {
            left: self.monitor.x,
            top: self.monitor.y,
            right: self.monitor.x + self.monitor.width,
            bottom: self.monitor.y + self.monitor.height,
        };
        let part = occluded_part(
            platform.engine_window_handle,
            platform.workerw_window_handle,
            platform.desktop_x,
            platform.desktop_y,
            &area,
            window,
        );
        if let Some(p) = part {
            self.occluded_rects.push(p);
        }
    }
}

/// The rectangle that a monitor of the earlier model covers.
pub open spec fn model_monitor_rect(m: ModelMonitorInfo) -> Rect {
    Rect { left: m.x, top: m.y, right: (m.x + m.width) as i32, bottom: (m.y + m.height) as i32 }
}

impl FullscrennOcclusionData {
    /// Handles one enumerated top-level window for the earlier platform state, like
    /// [`FullscreenOcclusionData::record_window`].
    pub fn record_window(&mut self, platform: &WindowsPlatform, window: &TopLevelWindow)
        requires
            occlusion_geometry_fits(
                platform.engine_window_handle,
                platform.workerw_window_handle,
                platform.desktop_x,
                platform.desktop_y,
                old(self).monitor.x + old(self).monitor.width,
                old(self).monitor.y + old(self).monitor.height,
                *window,
            ),
        ensures
            final(self).monitor == old(self).monitor,
            final(self).occluded_rects@ == match spec_occluded_part(
                platform.engine_window_handle,
                platform.workerw_window_handle,
                platform.desktop_x,
                platform.desktop_y,
                model_monitor_rect(old(self).monitor),
                *window,
            ) {
                Some(part) => old(self).occluded_rects@.push(part),
                None => old(self).occluded_rects@,
            },
    {
        if is_ignored_for_occlusion(platform.engine_window_handle, platform.workerw_window_handle, window)
            || window.window_rect.is_none() {
            return;
        }
        let area = Rect {
            left: self.monitor.x,
            top: self.monitor.y,
            right: self.monitor.x + self.monitor.width,
            bottom: self.monitor.y + self.monitor.height,
        };
        let part = occluded_part(
            platform.engine_window_handle,
            platform.workerw_window_handle,
            platform.desktop_x,
            platform.desktop_y,
            &area,
            window,
        );
        if let Some(p) = part {
            self.occluded_rects.push(p);
        }
    }
}

/// The monitor described by `GetMonitorInfoW`'s monitor and work-area rectangles.
pub open spec fn spec_monitor_info_from_rects(monitor: Rect, work: Rect) -> MonitorInfo {
    MonitorInfo {
        x: monitor.left,
        y: monitor.top,
        width: (monitor.right - monitor.left) as i32,
        height: (monitor.bottom - monitor.top) as i32,
        work_x: work.left,
        work_y: work.top,
        work_width: (work.right - work.left) as i32,
        work_height: (work.bottom - work.top) as i32,
    }
}

/// Whether the sizes of both rectangles fit in `i32` (what
/// [`monitor_info_from_rects`] requires).
pub fn monitor_rects_fit(monitor: &Rect, work: &Rect) -> (r: bool)
    ensures
        r == (fits_i32(monitor.right - monitor.left) && fits_i32(monitor.bottom - monitor.top)
            && fits_i32(work.right - work.left) && fits_i32(work.bottom - work.top)),
{
    let lo = i32::MIN as i64;
    let hi = i32::MAX as i64;
    let a = monitor.right as i64 - monitor.left as i64;
    let b = monitor.bottom as i64 - monitor.top as i64;
    let c = work.right as i64 - work.left as i64;
    let d = work.bottom as i64 - work.top as i64;
    lo <= a && a <= hi && lo <= b && b <= hi && lo <= c && c <= hi && lo <= d && d <= hi
}

/// Builds a monitor's description from its monitor and work-area rectangles.
pub fn monitor_info_from_rects(monitor: &Rect, work: &Rect) -> (r: MonitorInfo)
    requires
        fits_i32(monitor.right - monitor.left),
        fits_i32(monitor.bottom - monitor.top),
        fits_i32(work.right - work.left),
        fits_i32(work.bottom - work.top),
    ensures
        r == spec_monitor_info_from_rects(*monitor, *work),
{
    MonitorInfo {
        x: monitor.left,
        y: monitor.top,
        width: monitor.right - monitor.left,
        height: monitor.bottom - monitor.top,
        work_x: work.left,
        work_y: work.top,
        work_width: work.right - work.left,
        work_height: work.bottom - work.top,
    }
}

/// The monitor of the earlier model described by `GetMonitorInfoW`'s monitor and
/// work-area rectangles.
pub open spec fn spec_model_monitor_info_from_rects(monitor: Rect, work: Rect) -> ModelMonitorInfo {
    ModelMonitorInfo {
        x: monitor.left,
        y: monitor.top,
        width: (monitor.right - monitor.left) as i32,
        height: (monitor.bottom - monitor.top) as i32,
        work_width: (work.right - work.left) as i32,
        work_height: (work.bottom - work.top) as i32,
    }
}

/// Builds a monitor's description of the earlier model from its monitor and work-area
/// rectangles.
pub fn model_monitor_info_from_rects(monitor: &Rect, work: &Rect) -> (r: ModelMonitorInfo)
    requires
        fits_i32(monitor.right - monitor.left),
        fits_i32(monitor.bottom - monitor.top),
        fits_i32(work.right - work.left),
        fits_i32(work.bottom - work.top),
    ensures
        r == spec_model_monitor_info_from_rects(*monitor, *work),
{
    ModelMonitorInfo {
        x: monitor.left,
        y: monitor.top,
        width: monitor.right - monitor.left,
        height: monitor.bottom - monitor.top,
        work_width: work.right - work.left,
        work_height: work.bottom - work.top,
    }
}

/// The event that a low-level mouse hook call reports: nothing unless the hook code asks
/// for processing, nothing for injected input, nothing for a wheel message without
/// rotation or for other messages. The wheel delta is the high word of `mouse_data`.
pub open spec fn spec_mouse_hook_event(
    n_code: i32,
    message: usize,
    flags: u32,
    x: i32,
    y: i32,
    mouse_data: u32,
) -> Option<Events> {
    if n_code < HC_ACTION || flags & LLMHF_INJECTED != 0 {
        None
    } else {
        let delta = (mouse_data >> 16u32) as i16;
        let m = message as u32;
        if m == WM_MOUSEMOVE {
            Some(Events::Move { x, y })
        } else if m == WM_LBUTTONDOWN {
            Some(Events::LeftDown { x, y })
        } else if m == WM_LBUTTONUP {
            Some(Events::LeftUp { x, y })
        } else if m == WM_RBUTTONDOWN {
            Some(Events::RightDown { x, y })
        } else if m == WM_RBUTTONUP {
            Some(Events::RightUp { x, y })
        } else if m == WM_MBUTTONDOWN {
            Some(Events::MiddleDown { x, y })
        } else if m == WM_MBUTTONUP {
            Some(Events::MiddleUp { x, y })
        } else if m == WM_MOUSEWHEEL && delta != 0 {
            Some(Events::Scroll { x, y, delta })
        } else {
            None
        }
    }
}

/// Decodes a low-level mouse hook call: `message` is the `WPARAM`, and `flags`, the
/// point and `mouse_data` come from its `MSLLHOOKSTRUCT`.
pub fn mouse_hook_event(n_code: i32, message: usize, flags: u32, x: i32, y: i32, mouse_data: u32) -> (r:
    Option<Events>)
    ensures
        r == spec_mouse_hook_event(n_code, message, flags, x, y, mouse_data),
{
    if n_code < HC_ACTION || flags & LLMHF_INJECTED != 0 {
        return None;
    }
    let delta = #[verifier::truncate] ((mouse_data >> 16u32) as i16);
    let m = #[verifier::truncate] (message as u32);
    if m == WM_MOUSEMOVE {
        Some(Events::Move { x, y })
    } else if m == WM_LBUTTONDOWN {
        Some(Events::LeftDown { x, y })
    } else if m == WM_LBUTTONUP {
        Some(Events::LeftUp { x, y })
    } else if m == WM_RBUTTONDOWN {
        Some(Events::RightDown { x, y })
    } else if m == WM_RBUTTONUP {
        Some(Events::RightUp { x, y })
    } else if m == WM_MBUTTONDOWN {
        Some(Events::MiddleDown { x, y })
    } else if m == WM_MBUTTONUP {
        Some(Events::MiddleUp { x, y })
    } else if m == WM_MOUSEWHEEL {
        if delta != 0 {
            Some(Events::Scroll { x, y, delta })
        } else {
            None
        }
    } else {
        None
    }
}

/// A processed, non-injected mouse hook call decodes each button message to the event of
/// the same button and direction, at the hook's point: `WM_MOUSEMOVE` (0x0200) to a
/// move, 0x0201/0x0202 to a left press/release, 0x0204/0x0205 to a right press/release,
/// 0x0207/0x0208 to a middle press/release, and `WM_MOUSEWHEEL` (0x020A) to a scroll by
/// the high word of `mouse_data` when it is not zero. Hook calls not to be processed
/// (negative code) and injected input decode to nothing.
pub proof fn lemma_mouse_hook_decoding(n_code: i32, message: usize, flags: u32, x: i32, y: i32, mouse_data: u32)
    ensures
        n_code < 0 || flags & 1 != 0 ==> spec_mouse_hook_event(n_code, message, flags, x, y, mouse_data) is None,
        n_code >= 0 && flags & 1 == 0 ==> {
            let e = spec_mouse_hook_event(n_code, message, flags, x, y, mouse_data);
            &&& message == 0x0200 ==> e == Some(Events::Move { x, y })
            &&& message == 0x0201 ==> e == Some(Events::LeftDown { x, y })
            &&& message == 0x0202 ==> e == Some(Events::LeftUp { x, y })
            &&& message == 0x0204 ==> e == Some(Events::RightDown { x, y })
            &&& message == 0x0205 ==> e == Some(Events::RightUp { x, y })
            &&& message == 0x0207 ==> e == Some(Events::MiddleDown { x, y })
            &&& message == 0x0208 ==> e == Some(Events::MiddleUp { x, y })
            &&& message == 0x020A && (mouse_data >> 16u32) as i16 != 0 ==> e == Some(
                Events::Scroll { x, y, delta: (mouse_data >> 16u32) as i16 },
            )
            &&& message == 0x020A && (mouse_data >> 16u32) as i16 == 0 ==> e is None
        },
{
}

/// A processed, non-injected keyboard hook call decodes `WM_KEYDOWN` (0x0100) and
/// `WM_KEYUP` (0x0101) to a key press and release of the hook's virtual-key code; other
/// calls decode to nothing.
pub proof fn lemma_keyboard_hook_decoding(n_code: i32, message: usize, flags: u32, vk: u32)
    ensures
        n_code < 0 || flags & 0x10 != 0 ==> spec_keyboard_hook_event(n_code, message, flags, vk) is None,
        n_code >= 0 && flags & 0x10 == 0 && message == 0x0100 ==> spec_keyboard_hook_event(
            n_code,
            message,
            flags,
            vk,
        ) == Some(Events::KeyDown { vk }),
        n_code >= 0 && flags & 0x10 == 0 && message == 0x0101 ==> spec_keyboard_hook_event(
            n_code,
            message,
            flags,
            vk,
        ) == Some(Events::KeyUp { vk }),
{
}

/// Decoding a hook call and forwarding the event posts the hook's own message again, at
/// the hook's point for the mouse and with the hook's virtual-key code for the keyboard.
pub proof fn lemma_hook_forward_round_trip(
    n_code: i32,
    message: usize,
    flags: u32,
    x: i32,
    y: i32,
    mouse_data: u32,
    vk: u32,
    state: u32,
)
    ensures
        spec_mouse_hook_event(n_code, message, flags, x, y, mouse_data) matches Some(e) ==> {
            &&& spec_posted_message(state, e).message == message as u32
            &&& spec_posted_message(state, e).screen_point == Some(Point { x, y })
        },
        spec_keyboard_hook_event(n_code, message, flags, vk) matches Some(e) ==> {
            &&& spec_posted_message(state, e).message == message as u32
            &&& spec_posted_message(state, e).wparam == vk as usize
        },
{
}

/// The event that a low-level keyboard hook call reports: key down and key up of
/// non-injected input, when the hook code asks for processing.
pub open spec fn spec_keyboard_hook_event(n_code: i32, message: usize, flags: u32, vk: u32) -> Option<
    Events,
> {
    if n_code < HC_ACTION || flags & LLKHF_INJECTED != 0 {
        None
    } else {
        let m = message as u32;
        if m == WM_KEYDOWN {
            Some(Events::KeyDown { vk })
        } else if m == WM_KEYUP {
            Some(Events::KeyUp { vk })
        } else {
            None
        }
    }
}

/// Decodes a low-level keyboard hook call: `message` is the `WPARAM`, and `flags` and
/// `vk` come from its `KBDLLHOOKSTRUCT`.
pub fn keyboard_hook_event(n_code: i32, message: usize, flags: u32, vk: u32) -> (r: Option<Events>)
    ensures
        r == spec_keyboard_hook_event(n_code, message, flags, vk),
{
    if n_code < HC_ACTION || flags & LLKHF_INJECTED != 0 {
        return None;
    }
    let m = #[verifier::truncate] (message as u32);
    if m == WM_KEYDOWN {
        Some(Events::KeyDown { vk })
    } else if m == WM_KEYUP {
        Some(Events::KeyUp { vk })
    } else {
        None
    }
}

} // verus!
