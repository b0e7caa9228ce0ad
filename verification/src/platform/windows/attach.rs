//! State of an engine window attached behind the desktop icons, and the decisions taken
//! on it: locating the desktop window hierarchy, reparenting and styling the engine
//! window, monitor coordinate normalisation, the z-order watcher and mouse input.
use crate::platform::windows::constants::{
    VK_LBUTTON, VK_MBUTTON, VK_RBUTTON, VK_XBUTTON1, VK_XBUTTON2, WS_CHILD, WS_EX_LAYERED,
    WS_EX_STATICEDGE, WS_OVERLAPPEDWINDOW,
};
use vstd::prelude::*;

verus! {

/// Whether `button` names one of the five tracked mouse buttons
/// (0 left, 1 right, 2 middle, 3 X1, 4 X2).
pub open spec fn button_in_range(button: i32) -> bool {
    0 <= button < 5
}

/// Whether `button` is held in the latest sample.
pub open spec fn button_down(current: Seq<bool>, button: i32) -> bool {
    button_in_range(button) && current[button as int]
}

/// Whether `button` is a tracked button that is not held in the latest sample.
pub open spec fn button_up(current: Seq<bool>, button: i32) -> bool {
    button_in_range(button) && !current[button as int]
}

/// Whether `button` went from released to pressed between the two samples.
pub open spec fn button_pressed(current: Seq<bool>, previous: Seq<bool>, button: i32) -> bool {
    button_in_range(button) && current[button as int] && !previous[button as int]
}

/// Whether `button` went from pressed to released between the two samples.
pub open spec fn button_released(current: Seq<bool>, previous: Seq<bool>, button: i32) -> bool {
    button_in_range(button) && !current[button as int] && previous[button as int]
}

/// A tracked button is either down or up, and never both; anything else is neither.
pub proof fn lemma_button_down_or_up(current: Seq<bool>, button: i32)
    ensures
        button_in_range(button) ==> button_down(current, button) != button_up(current, button),
        !button_in_range(button) ==> !button_down(current, button) && !button_up(current, button),
{
}

/// A button that was just pressed is down, one that was just released is up, and no
/// button is both just pressed and just released.
pub proof fn lemma_edges_imply_levels(current: Seq<bool>, previous: Seq<bool>, button: i32)
    ensures
        button_pressed(current, previous, button) ==> button_down(current, button),
        button_released(current, previous, button) ==> button_up(current, button),
        !(button_pressed(current, previous, button) && button_released(current, previous, button)),
{
}

/// After a frame update, a button reads as just pressed exactly when its key is down in
/// the new sample and was not down in the sample before; and when the next frame samples
/// the keys in the same state, no button reads as just pressed or just released.
pub proof fn lemma_update_edges(
    before: AttachWindow,
    after: AttachWindow,
    again: AttachWindow,
    async_key_states: [i16; 5],
    button: i32,
)
    requires
        after.previous_mouse_state@ == before.current_mouse_state@,
        forall|i: int| 0 <= i < 5 ==> #[trigger] after.current_mouse_state[i] == async_key_is_down(async_key_states[i]),
        again.previous_mouse_state@ == after.current_mouse_state@,
        forall|i: int| 0 <= i < 5 ==> #[trigger] again.current_mouse_state[i] == async_key_is_down(async_key_states[i]),
        button_in_range(button),
    ensures
        button_pressed(after.current_mouse_state@, after.previous_mouse_state@, button)
            == (async_key_is_down(async_key_states[button as int]) && !before.current_mouse_state[button as int]),
        button_released(after.current_mouse_state@, after.previous_mouse_state@, button)
            == (!async_key_is_down(async_key_states[button as int]) && before.current_mouse_state[button as int]),
        !button_pressed(again.current_mouse_state@, again.previous_mouse_state@, button),
        !button_released(again.current_mouse_state@, again.previous_mouse_state@, button),
{
    assert(again.current_mouse_state[button as int] == after.current_mouse_state[button as int]);
}

/// Whether an integer fits in an `i32`.
pub open spec fn fits_i32(v: int) -> bool {
    i32::MIN <= v <= i32::MAX
}

/// Display monitor bounds and work area, in virtual-desktop pixels.
#[derive(Clone, Copy, Debug, PartialEq, Eq, Structural)]
pub struct MonitorInfo {
    /// X coordinate of the monitor's top-left corner.
    pub x: i32,
    /// Y coordinate of the monitor's top-left corner.
    pub y: i32,
    /// Monitor width in pixels.
    pub width: i32,
    /// Monitor height in pixels.
    pub height: i32,
    /// Work area top-left X.
    pub work_x: i32,
    /// Work area top-left Y.
    pub work_y: i32,
    /// Work area width.
    pub work_width: i32,
    /// Work area height.
    pub work_height: i32,
}

impl Default for MonitorInfo {
    fn default() -> (r: Self)
        ensures
            r == (MonitorInfo {
                x: 0,
                y: 0,
                width: 0,
                height: 0,
                work_x: 0,
                work_y: 0,
                work_width: 0,
                work_height: 0,
            }),
    {
        MonitorInfo {
            x: 0,
            y: 0,
            width: 0,
            height: 0,
            work_x: 0,
            work_y: 0,
            work_width: 0,
            work_height: 0,
        }
    }
}

/// A screen point (the plain values of a Win32 `POINT`).
#[derive(Clone, Copy, Debug, PartialEq, Eq, Structural)]
pub struct Point {
    pub x: i32,
    pub y: i32,
}

/// A rectangle (the plain values of a Win32 `RECT`): `left <= x < right`,
/// `top <= y < bottom`.
#[derive(Clone, Copy, Debug, PartialEq, Eq, Structural)]
pub struct Rect {
    pub left: i32,
    pub top: i32,
    pub right: i32,
    pub bottom: i32,
}

/// Occlusion rectangles collected for one monitor.
#[derive(Debug)]
pub struct FullscreenOcclusionData {
    pub monitor: MonitorInfo,
    pub occluded_rects: Vec<Rect>,
}

/// Platform state of an engine window attached behind the desktop icons.
///
/// Window handles are kept as the integer values of the `HWND`s they stand for.
#[derive(Debug)]
pub struct AttachWindow {
    /// Top-level Program Manager window.
    pub progman_window_handle: Option<isize>,
    /// `WorkerW` window that renders the static wallpaper.
    pub workerw_window_handle: Option<isize>,
    /// `SHELLDLL_DefView` window that displays the desktop icons.
    pub shell_view_window_handle: Option<isize>,
    /// The engine window that is injected behind the icons.
    pub engine_window_handle: Option<isize>,
    /// Current monitor in desktop coordinates.
    pub selected_monitor: Option<MonitorInfo>,
    /// Offset of the virtual desktop origin.
    pub desktop_x: i32,
    pub desktop_y: i32,
    /// Mouse button samples of the current and the previous frame.
    pub current_mouse_state: [bool; 5],
    pub previous_mouse_state: [bool; 5],
    /// Whether the `WorkerW` is a sibling of `Progman` (Windows before 24H2).
    pub is_pre_24h2: bool,
    /// Whether the z-order watcher thread is running.
    pub watcher_running: bool,
}

impl Default for AttachWindow {
    fn default() -> (r: Self)
        ensures
            r.progman_window_handle is None,
            r.workerw_window_handle is None,
            r.shell_view_window_handle is None,
            r.engine_window_handle is None,
            r.selected_monitor is None,
            r.desktop_x == 0,
            r.desktop_y == 0,
            r.current_mouse_state@ == seq![false, false, false, false, false],
            r.previous_mouse_state@ == seq![false, false, false, false, false],
            !r.is_pre_24h2,
            !r.watcher_active(),
    {
        AttachWindow {
            progman_window_handle: None,
            workerw_window_handle: None,
            shell_view_window_handle: None,
            engine_window_handle: None,
            selected_monitor: None,
            desktop_x: 0,
            desktop_y: 0,
            current_mouse_state: [false, false, false, false, false],
            previous_mouse_state: [false, false, false, false, false],
            is_pre_24h2: false,
            watcher_running: false,
        }
    }
}

/// Whether a raw `GetAsyncKeyState` result reports the key as held down (bit 15).
pub open spec fn async_key_is_down(raw: i16) -> bool {
    (raw as i32) & 0x8000 != 0
}

/// The virtual-key code polled for each tracked mouse button index.
pub open spec fn spec_virtual_key_for_mouse_button(button: usize) -> u16 {
    if button == 0 {
        VK_LBUTTON
    } else if button == 1 {
        VK_RBUTTON
    } else if button == 2 {
        VK_MBUTTON
    } else if button == 3 {
        VK_XBUTTON1
    } else if button == 4 {
        VK_XBUTTON2
    } else {
        0
    }
}

/// Virtual-key code of the mouse button with the given index, or 0 for any other index.
pub fn get_virtual_key_for_mouse_button(button: usize) -> (vk: u16)
    ensures
        vk == spec_virtual_key_for_mouse_button(button),
        button < 5 ==> vk != 0,
{
    match button {
        0 => VK_LBUTTON,
        1 => VK_RBUTTON,
        2 => VK_MBUTTON,
        3 => VK_XBUTTON1,
        4 => VK_XBUTTON2,
        _ => 0,
    }
}

/// Decodes the "held down" bit of a `GetAsyncKeyState` result.
pub fn is_async_key_down(raw: i16) -> (down: bool)
    ensures
        down == async_key_is_down(raw),
        down == (raw < 0),
{
    assert(((raw as i32) & 0x8000 != 0) == (raw < 0)) by (bit_vector);
    (raw as i32) & 0x8000 != 0
}

/// The window style of a wallpaper child: the overlapped-window decorations removed
/// (with the mask widened from 32 bits, as `GetWindowLongPtrW` values are) and `WS_CHILD`
/// added.
pub open spec fn spec_wallpaper_style(style: isize) -> isize {
    (style & ((!WS_OVERLAPPEDWINDOW) as isize)) | (WS_CHILD as isize)
}

/// The extended window style of a layered wallpaper child, with `WS_EX_STATICEDGE`
/// added when `static_edge_mode` is set.
pub open spec fn spec_wallpaper_ex_style(ex_style: isize, static_edge_mode: bool) -> isize {
    if static_edge_mode {
        (ex_style | (WS_EX_LAYERED as isize)) | (WS_EX_STATICEDGE as isize)
    } else {
        ex_style | (WS_EX_LAYERED as isize)
    }
}

/// Rewrites a `GWL_STYLE` value so that the window becomes an undecorated child window.
pub fn wallpaper_style(style: isize) -> (r: isize)
    ensures
        r == spec_wallpaper_style(style),
        r & (WS_CHILD as isize) == WS_CHILD as isize,
        r & (WS_OVERLAPPEDWINDOW as isize) == 0,
        r & 0x3F30_FFFF == style & 0x3F30_FFFF,
{
    let r = (style & ((!WS_OVERLAPPEDWINDOW) as isize)) | (WS_CHILD as isize);
    assert(r & (0x4000_0000u32 as isize) == 0x4000_0000u32 as isize) by (bit_vector)
        requires
            r == (style & ((!0x00CF_0000u32) as isize)) | (0x4000_0000u32 as isize),
    ;
    assert(r & (0x00CF_0000u32 as isize) == 0) by (bit_vector)
        requires
            r == (style & ((!0x00CF_0000u32) as isize)) | (0x4000_0000u32 as isize),
    ;
    assert(r & 0x3F30_FFFF == style & 0x3F30_FFFF) by (bit_vector)
        requires
            r == (style & ((!0x00CF_0000u32) as isize)) | (0x4000_0000u32 as isize),
    ;
    r
}

/// Rewrites a `GWL_EXSTYLE` value so that the window becomes layered, adding the static
/// edge when requested.
pub fn wallpaper_ex_style(ex_style: isize, static_edge_mode: bool) -> (r: isize)
    ensures
        r == spec_wallpaper_ex_style(ex_style, static_edge_mode),
        r & (WS_EX_LAYERED as isize) == WS_EX_LAYERED as isize,
        static_edge_mode ==> r & (WS_EX_STATICEDGE as isize) == WS_EX_STATICEDGE as isize,
        !static_edge_mode ==> r & (WS_EX_STATICEDGE as isize) == ex_style & (
        WS_EX_STATICEDGE as isize),
{
    let mut r = ex_style | (WS_EX_LAYERED as isize);
    if static_edge_mode {
        r = r | (WS_EX_STATICEDGE as isize);
        assert(r & (0x0008_0000u32 as isize) == 0x0008_0000u32 as isize && r & (
        0x0002_0000u32 as isize) == 0x0002_0000u32 as isize) by (bit_vector)
            requires
                r == (ex_style | (0x0008_0000u32 as isize)) | (0x0002_0000u32 as isize),
        ;
    } else {
        assert(r & (0x0008_0000u32 as isize) == 0x0008_0000u32 as isize && r & (
        0x0002_0000u32 as isize) == ex_style & (0x0002_0000u32 as isize)) by (bit_vector)
            requires
                r == ex_style | (0x0008_0000u32 as isize),
        ;
    }
    r
}

/// Rewrites a `GWL_EXSTYLE` value so that the window gets the static edge.
pub fn static_edge_ex_style(ex_style: isize) -> (r: isize)
    ensures
        r == ex_style | (WS_EX_STATICEDGE as isize),
        r & (WS_EX_STATICEDGE as isize) == WS_EX_STATICEDGE as isize,
        r & !(WS_EX_STATICEDGE as isize) == ex_style & !(WS_EX_STATICEDGE as isize),
{
    let r = ex_style | (WS_EX_STATICEDGE as isize);
    assert(r & (0x0002_0000u32 as isize) == 0x0002_0000u32 as isize && r & !(0x0002_0000u32 as isize)
        == ex_style & !(0x0002_0000u32 as isize)) by (bit_vector)
        requires
            r == ex_style | (0x0002_0000u32 as isize),
    ;
    r
}

/// One window operation of attaching the engine window, in the order in which the
/// caller performs it (stopping at the first one that fails).
#[derive(Clone, Copy, Debug, PartialEq, Eq, Structural)]
pub enum WindowCommand {
    /// `SetParent(child, parent)`.
    SetParent { child: isize, parent: Option<isize> },
    /// Read `GWL_STYLE`, rewrite it with [`wallpaper_style`], write it back.
    MakeChildStyle { hwnd: isize },
    /// Read `GWL_EXSTYLE`, rewrite it with [`wallpaper_ex_style`], write it back.
    MakeLayeredExStyle { hwnd: isize, static_edge_mode: bool },
    /// Read `GWL_EXSTYLE`, rewrite it with [`static_edge_ex_style`], write it back.
    AddStaticEdge { hwnd: isize },
    /// `SetLayeredWindowAttributes(hwnd, 0, 255, LWA_ALPHA)`: fully opaque.
    MakeOpaque { hwnd: isize },
    /// `SetWindowPos(hwnd, above, 0, 0, 0, 0, SWP_NOACTIVATE | SWP_NOMOVE | SWP_NOSIZE)`:
    /// put `hwnd` directly below `above` in the z-order.
    PlaceBelow { hwnd: isize, above: isize },
}

/// Position and size (`SetWindowPos` arguments) of the engine window on its monitor.
#[derive(Clone, Copy, Debug, PartialEq, Eq, Structural)]
pub struct WindowPlacement {
    pub x: i32,
    pub y: i32,
    pub width: i32,
    pub height: i32,
}

/// Handles the z-order watcher works with.
#[derive(Clone, Copy, Debug, PartialEq, Eq, Structural)]
pub struct WatcherTargets {
    /// The desktop icons view.
    pub shell_def_view: isize,
    /// The engine window.
    pub engine: isize,
    /// The window that the engine is reparented to when a `WorkerW` slips in between.
    pub parent: isize,
}

/// Why the z-order watcher could not be started or stopped.
#[derive(Clone, Copy, Debug, PartialEq, Eq, Structural)]
pub enum WatcherError {
    /// A watcher is running already.
    AlreadyRunning,
    /// No watcher is running.
    NotStarted,
    /// The icons view, the engine or the window to reparent it to is unknown.
    MissingHandles,
}

/// Why no monitor list could be obtained.
#[derive(Clone, Copy, Debug, PartialEq, Eq)]
pub enum MonitorError<E> {
    /// Monitor enumeration failed with this error.
    Enumeration(E),
    /// Enumeration succeeded but found no monitor.
    NoMonitors,
}

impl WatcherError {
    /// The message that reports this error.
    pub fn message(&self) -> (r: &'static str)
        ensures
            *self == WatcherError::AlreadyRunning ==> r@ == "another watcher is working"@,
            *self == WatcherError::NotStarted ==> r@ == "Watcher has not yet started"@,
            *self == WatcherError::MissingHandles ==> r@ == "required window handles are missing"@,
    {
        match self {
            WatcherError::AlreadyRunning => "another watcher is working",
            WatcherError::NotStarted => "Watcher has not yet started",
            WatcherError::MissingHandles => "required window handles are missing",
        }
    }
}

impl WatcherTargets {
    /// What the watcher does after one z-order check: when a `WorkerW` was found between
    /// the icons view and the engine, the engine is reparented, and the result holds the
    /// `SetParent` arguments (child, new parent); otherwise nothing is done.
    pub fn reparent_after_check(&self, workerw_between: bool) -> (r: Option<(isize, isize)>)
        ensures
            workerw_between ==> r == Some((self.engine, self.parent)),
            !workerw_between ==> r is None,
    {
        if workerw_between {
            Some((self.engine, self.parent))
        } else {
            None
        }
    }
}

/// The smallest monitor `x` of a list, starting from `i32::MAX`.
pub open spec fn spec_min_x(monitors: Seq<MonitorInfo>) -> int
    decreases monitors.len(),
{
    if monitors.len() == 0 {
        i32::MAX as int
    } else {
        let rest = spec_min_x(monitors.drop_last());
        let x = monitors.last().x as int;
        if x < rest {
            x
        } else {
            rest
        }
    }
}

/// The smallest monitor `y` of a list, starting from `i32::MAX`.
pub open spec fn spec_min_y(monitors: Seq<MonitorInfo>) -> int
    decreases monitors.len(),
{
    if monitors.len() == 0 {
        i32::MAX as int
    } else {
        let rest = spec_min_y(monitors.drop_last());
        let y = monitors.last().y as int;
        if y < rest {
            y
        } else {
            rest
        }
    }
}

/// A monitor moved by `(-dx, -dy)`.
pub open spec fn shifted(m: MonitorInfo, dx: int, dy: int) -> MonitorInfo {
    MonitorInfo { x: (m.x - dx) as i32, y: (m.y - dy) as i32, ..m }
}

/// Whether every monitor can be moved to coordinates relative to the top-left corner of
/// the virtual desktop without leaving the `i32` range.
pub open spec fn monitors_normalizable(monitors: Seq<MonitorInfo>) -> bool {
    forall|i: int|
        0 <= i < monitors.len() ==> #[trigger] monitors[i].x - spec_min_x(monitors) <= i32::MAX
            && monitors[i].y - spec_min_y(monitors) <= i32::MAX
}

/// The monitors moved so that the virtual desktop starts at `(0, 0)`.
pub open spec fn normalized_monitors(monitors: Seq<MonitorInfo>) -> Seq<MonitorInfo> {
    monitors.map_values(|m: MonitorInfo| shifted(m, spec_min_x(monitors), spec_min_y(monitors)))
}

/// The smallest `x` is at most every monitor's `x`, and is some monitor's `x` unless the
/// list is empty.
pub proof fn lemma_min_x_bounds(monitors: Seq<MonitorInfo>)
    ensures
        spec_min_x(monitors) <= i32::MAX,
        forall|i: int| 0 <= i < monitors.len() ==> spec_min_x(monitors) <= #[trigger] monitors[i].x,
        monitors.len() > 0 ==> exists|i: int|
            0 <= i < monitors.len() && #[trigger] monitors[i].x == spec_min_x(monitors),
    decreases monitors.len(),
{
    if monitors.len() > 0 {
        lemma_min_x_bounds(monitors.drop_last());
        let rest = monitors.drop_last();
        assert forall|i: int| 0 <= i < monitors.len() implies spec_min_x(monitors)
            <= #[trigger] monitors[i].x by {
            if i < monitors.len() - 1 {
                assert(rest[i] == monitors[i]);
            }
        }
        if monitors.last().x < spec_min_x(rest) {
            assert(monitors[monitors.len() - 1].x == spec_min_x(monitors));
        } else if rest.len() == 0 {
            assert(monitors[0].x == spec_min_x(monitors));
        } else {
            let j = choose|j: int| 0 <= j < rest.len() && #[trigger] rest[j].x == spec_min_x(rest);
            assert(monitors[j] == rest[j]);
        }
    }
}

/// The smallest `y` is at most every monitor's `y`, and is some monitor's `y` unless the
/// list is empty.
pub proof fn lemma_min_y_bounds(monitors: Seq<MonitorInfo>)
    ensures
        spec_min_y(monitors) <= i32::MAX,
        forall|i: int| 0 <= i < monitors.len() ==> spec_min_y(monitors) <= #[trigger] monitors[i].y,
        monitors.len() > 0 ==> exists|i: int|
            0 <= i < monitors.len() && #[trigger] monitors[i].y == spec_min_y(monitors),
    decreases monitors.len(),
{
    if monitors.len() > 0 {
        lemma_min_y_bounds(monitors.drop_last());
        let rest = monitors.drop_last();
        assert forall|i: int| 0 <= i < monitors.len() implies spec_min_y(monitors)
            <= #[trigger] monitors[i].y by {
            if i < monitors.len() - 1 {
                assert(rest[i] == monitors[i]);
            }
        }
        if monitors.last().y < spec_min_y(rest) {
            assert(monitors[monitors.len() - 1].y == spec_min_y(monitors));
        } else if rest.len() == 0 {
            assert(monitors[0].y == spec_min_y(monitors));
        } else {
            let j = choose|j: int| 0 <= j < rest.len() && #[trigger] rest[j].y == spec_min_y(rest);
            assert(monitors[j] == rest[j]);
        }
    }
}

/// Normalised monitors start the virtual desktop at `(0, 0)`: every monitor lies at
/// non-negative coordinates, and when there is any monitor, one of them touches the left
/// edge and one the top edge. Adding the recorded origin back gives the original corner;
/// sizes and work areas are unchanged.
pub proof fn lemma_normalized_origin(monitors: Seq<MonitorInfo>)
    requires
        monitors_normalizable(monitors),
    ensures
        normalized_monitors(monitors).len() == monitors.len(),
        forall|i: int|
            0 <= i < monitors.len() ==> {
                let n = #[trigger] normalized_monitors(monitors)[i];
                &&& n.x >= 0
                &&& n.y >= 0
                &&& n.x + spec_min_x(monitors) == monitors[i].x
                &&& n.y + spec_min_y(monitors) == monitors[i].y
                &&& n.width == monitors[i].width
                &&& n.height == monitors[i].height
                &&& n.work_x == monitors[i].work_x
                &&& n.work_y == monitors[i].work_y
                &&& n.work_width == monitors[i].work_width
                &&& n.work_height == monitors[i].work_height
            },
        monitors.len() > 0 ==> exists|i: int|
            0 <= i < monitors.len() && #[trigger] normalized_monitors(monitors)[i].x == 0,
        monitors.len() > 0 ==> exists|i: int|
            0 <= i < monitors.len() && #[trigger] normalized_monitors(monitors)[i].y == 0,
{
    lemma_min_x_bounds(monitors);
    lemma_min_y_bounds(monitors);
    let n = normalized_monitors(monitors);
    assert forall|i: int| 0 <= i < monitors.len() implies {
        let m = #[trigger] normalized_monitors(monitors)[i];
        &&& m.x >= 0
        &&& m.y >= 0
        &&& m.x + spec_min_x(monitors) == monitors[i].x
        &&& m.y + spec_min_y(monitors) == monitors[i].y
        &&& m.width == monitors[i].width
        &&& m.height == monitors[i].height
        &&& m.work_x == monitors[i].work_x
        &&& m.work_y == monitors[i].work_y
        &&& m.work_width == monitors[i].work_width
        &&& m.work_height == monitors[i].work_height
    } by {
        assert(monitors[i].x - spec_min_x(monitors) <= i32::MAX);
        assert(monitors[i].y - spec_min_y(monitors) <= i32::MAX);
    }
    if monitors.len() > 0 {
        let i = choose|i: int| 0 <= i < monitors.len() && #[trigger] monitors[i].x == spec_min_x(monitors);
        assert(n[i].x == 0);
        let j = choose|j: int| 0 <= j < monitors.len() && #[trigger] monitors[j].y == spec_min_y(monitors);
        assert(n[j].y == 0);
    }
}

/// Moves monitors so that the virtual desktop starts at `(0, 0)`; returns the monitors and
/// the offset `(min x, min y)` that was subtracted (`i32::MAX` for an empty list).
pub fn normalize_monitors(monitors: Vec<MonitorInfo>) -> (r: (Vec<MonitorInfo>, i32, i32))
    requires
        monitors_normalizable(monitors@),
    ensures
        r.1 == spec_min_x(monitors@),
        r.2 == spec_min_y(monitors@),
        r.0@ == normalized_monitors(monitors@),
{
    let mut desktop_x: i32 = i32::MAX;
    let mut desktop_y: i32 = i32::MAX;
    let n = monitors.len();
    let mut i: usize = 0;
    while i < n
        invariant
            n == monitors@.len(),
            0 <= i <= n,
            desktop_x == spec_min_x(monitors@.take(i as int)),
            desktop_y == spec_min_y(monitors@.take(i as int)),
        decreases n - i,
    {
        proof {
            lemma_min_x_bounds(monitors@.take(i as int));
            lemma_min_y_bounds(monitors@.take(i as int));
            assert(monitors@.take(i + 1).drop_last() =~= monitors@.take(i as int));
        }
        if monitors[i].x < desktop_x {
            desktop_x = monitors[i].x;
        }
        if monitors[i].y < desktop_y {
            desktop_y = monitors[i].y;
        }
        i += 1;
    }
    assert(monitors@.take(n as int) =~= monitors@);
    proof {
        lemma_min_x_bounds(monitors@);
        lemma_min_y_bounds(monitors@);
    }
    let mut out: Vec<MonitorInfo> = Vec::new();
    let mut j: usize = 0;
    while j < n
        invariant
            n == monitors@.len(),
            0 <= j <= n,
            desktop_x == spec_min_x(monitors@),
            desktop_y == spec_min_y(monitors@),
            monitors_normalizable(monitors@),
            forall|k: int| 0 <= k < n ==> desktop_x <= #[trigger] monitors@[k].x,
            forall|k: int| 0 <= k < n ==> desktop_y <= #[trigger] monitors@[k].y,
            out@.len() == j,
            forall|k: int|
                0 <= k < j ==> #[trigger] out@[k] == shifted(monitors@[k], desktop_x as int, desktop_y as int),
        decreases n - j,
    {
        let m = monitors[j];
        assert(m.x - desktop_x <= i32::MAX && m.y - desktop_y <= i32::MAX);
        out.push(MonitorInfo { x: m.x - desktop_x, y: m.y - desktop_y, ..m });
        j += 1;
    }
    assert(out@ =~= normalized_monitors(monitors@));
    (out, desktop_x, desktop_y)
}

/// Whether the monitors can be moved to desktop-relative coordinates without leaving the
/// `i32` range (what [`normalize_monitors`] and monitor enumeration require).
pub fn monitors_fit_desktop(monitors: &Vec<MonitorInfo>) -> (r: bool)
    ensures
        r == monitors_normalizable(monitors@),
{
    let mut min_x: i32 = i32::MAX;
    let mut min_y: i32 = i32::MAX;
    let n = monitors.len();
    let mut i: usize = 0;
    while i < n
        invariant
            n == monitors@.len(),
            0 <= i <= n,
            min_x == spec_min_x(monitors@.take(i as int)),
            min_y == spec_min_y(monitors@.take(i as int)),
        decreases n - i,
    {
        proof {
            lemma_min_x_bounds(monitors@.take(i as int));
            lemma_min_y_bounds(monitors@.take(i as int));
            assert(monitors@.take(i + 1).drop_last() =~= monitors@.take(i as int));
        }
        if monitors[i].x < min_x {
            min_x = monitors[i].x;
        }
        if monitors[i].y < min_y {
            min_y = monitors[i].y;
        }
        i += 1;
    }
    assert(monitors@.take(n as int) =~= monitors@);
    let mut j: usize = 0;
    while j < n
        invariant
            n == monitors@.len(),
            0 <= j <= n,
            min_x == spec_min_x(monitors@),
            min_y == spec_min_y(monitors@),
            forall|k: int|
                0 <= k < j ==> #[trigger] monitors@[k].x - spec_min_x(monitors@) <= i32::MAX
                    && monitors@[k].y - spec_min_y(monitors@) <= i32::MAX,
        decreases n - j,
    {
        if (monitors[j].x as i64) - (min_x as i64) > i32::MAX as i64 || (monitors[j].y as i64) - (
        min_y as i64) > i32::MAX as i64 {
            return false;
        }
        j += 1;
    }
    true
}

/// Index of the monitor to cover, or `None` for the whole virtual desktop: `None`, a
/// negative index and an index past the last monitor all select the virtual desktop.
pub open spec fn spec_wallpaper_target_index(monitor_index: Option<i32>, count: nat) -> Option<
    int,
> {
    let index = match monitor_index {
        Some(i) => i as int,
        None => -1,
    };
    if index < 0 || index >= count {
        None
    } else {
        Some(index)
    }
}

/// The target that spans the whole virtual desktop.
pub open spec fn virtual_desktop_target(virtual_width: i32, virtual_height: i32) -> MonitorInfo {
    MonitorInfo {
        x: 0,
        y: 0,
        width: virtual_width,
        height: virtual_height,
        work_x: 0,
        work_y: 0,
        work_width: 0,
        work_height: 0,
    }
}

/// Picks the wallpaper target among already enumerated monitors.
pub fn select_wallpaper_target(
    monitor_index: Option<i32>,
    monitors: &Vec<MonitorInfo>,
    virtual_width: i32,
    virtual_height: i32,
) -> (r: MonitorInfo)
    ensures
        r == match spec_wallpaper_target_index(monitor_index, monitors@.len()) {
            Some(i) => monitors@[i],
            None => virtual_desktop_target(virtual_width, virtual_height),
        },
        (monitor_index matches Some(i) && 0 <= i < monitors@.len()) ==> r == monitors@[monitor_index->0 as int],
        !(monitor_index matches Some(i) && 0 <= i < monitors@.len()) ==> {
            &&& r.x == 0 && r.y == 0
            &&& r.width == virtual_width && r.height == virtual_height
        },
{
    let monitor_index = match monitor_index {
        Some(i) => i,
        None => -1,
    };
    if monitor_index < 0 || monitor_index as usize >= monitors.len() {
        let mut info = MonitorInfo::default();
        info.x = 0;
        info.y = 0;
        info.width = virtual_width;
        info.height = virtual_height;
        info
    } else {
        monitors[monitor_index as usize]
    }
}

/// Whether the engine window's placement on `monitor` stays in the `i32` range.
pub open spec fn placement_fits(monitor: MonitorInfo, static_edge_mode: bool, edge_x: i32, edge_y: i32) -> bool {
    let (ex, ey) = if static_edge_mode { (edge_x as int, edge_y as int) } else { (0int, 0int) };
    &&& fits_i32(monitor.x - ex)
    &&& fits_i32(monitor.y - ey)
    &&& fits_i32(2 * ex)
    &&& fits_i32(2 * ey)
    &&& fits_i32(monitor.width + 2 * ex)
    &&& fits_i32(monitor.height + 2 * ey)
}

/// The placement that covers `monitor`; with the static edge, it is enlarged by the
/// border thickness on every side so that the border is hidden.
pub open spec fn spec_wallpaper_placement(
    monitor: MonitorInfo,
    static_edge_mode: bool,
    edge_x: i32,
    edge_y: i32,
) -> WindowPlacement {
    let (ex, ey) = if static_edge_mode { (edge_x as int, edge_y as int) } else { (0int, 0int) };
    WindowPlacement {
        x: (monitor.x - ex) as i32,
        y: (monitor.y - ey) as i32,
        width: (monitor.width + 2 * ex) as i32,
        height: (monitor.height + 2 * ey) as i32,
    }
}

/// Whether the engine window's placement on `monitor` stays in the `i32` range (what
/// [`AttachWindow::place_wallpaper_window`] requires).
pub fn wallpaper_placement_fits(monitor: &MonitorInfo, static_edge_mode: bool, edge_x: i32, edge_y: i32) -> (r: bool)
    ensures
        r == placement_fits(*monitor, static_edge_mode, edge_x, edge_y),
{
    let (ex, ey): (i64, i64) = if static_edge_mode {
        (edge_x as i64, edge_y as i64)
    } else {
        (0, 0)
    };
    let lo = i32::MIN as i64;
    let hi = i32::MAX as i64;
    let x = monitor.x as i64 - ex;
    let y = monitor.y as i64 - ey;
    let w = monitor.width as i64 + 2 * ex;
    let h = monitor.height as i64 + 2 * ey;
    lo <= x && x <= hi && lo <= y && y <= hi && lo <= 2 * ex && 2 * ex <= hi && lo <= 2 * ey && 2
        * ey <= hi && lo <= w && w <= hi && lo <= h && h <= hi
}

/// What attaching an engine window to the whole virtual desktop amounts to: the target,
/// the operations that attach the engine (run in order, stopping at the first failure)
/// and where the engine window goes afterwards.
#[derive(Debug)]
pub struct AutoAttachPlan {
    pub target: MonitorInfo,
    pub commands: Vec<WindowCommand>,
    pub placement: WindowPlacement,
}

/// What cleanup still has to do on the system after [`AttachWindow::begin_cleanup`].
#[derive(Clone, Copy, Debug, PartialEq, Eq, Structural)]
pub struct CleanupSteps {
    /// Signal the watcher thread and wait for it.
    pub join_watcher: bool,
    /// Reapply the desktop wallpaper so that the desktop is redrawn.
    pub refresh_wallpaper: bool,
}

/// Whether the state fields other than the window handles are the same.
pub open spec fn same_except_handles(a: AttachWindow, b: AttachWindow) -> bool {
    &&& a.selected_monitor == b.selected_monitor
    &&& a.desktop_x == b.desktop_x
    &&& a.desktop_y == b.desktop_y
    &&& a.current_mouse_state@ == b.current_mouse_state@
    &&& a.previous_mouse_state@ == b.previous_mouse_state@
    &&& a.is_pre_24h2 == b.is_pre_24h2
    &&& a.watcher_active() == b.watcher_active()
}

/// Whether the window handles are the same.
pub open spec fn same_handles(a: AttachWindow, b: AttachWindow) -> bool {
    &&& a.progman_window_handle == b.progman_window_handle
    &&& a.workerw_window_handle == b.workerw_window_handle
    &&& a.shell_view_window_handle == b.shell_view_window_handle
    &&& a.engine_window_handle == b.engine_window_handle
}

/// The operations that attach `hwnd` behind the icons, in order.
pub open spec fn spec_attach_commands(s: AttachWindow, hwnd: isize, static_edge_mode: bool) -> Seq<
    WindowCommand,
> {
    if s.is_pre_24h2 {
        let base = seq![
            WindowCommand::SetParent { child: hwnd, parent: s.workerw_window_handle },
            WindowCommand::MakeChildStyle { hwnd },
        ];
        if static_edge_mode {
            base.push(WindowCommand::AddStaticEdge { hwnd })
        } else {
            base
        }
    } else {
        let base = seq![
            WindowCommand::MakeChildStyle { hwnd },
            WindowCommand::MakeLayeredExStyle { hwnd, static_edge_mode },
            WindowCommand::MakeOpaque { hwnd },
            WindowCommand::SetParent { child: hwnd, parent: s.progman_window_handle },
        ];
        let with_icons = match s.shell_view_window_handle {
            Some(shell) => base.push(WindowCommand::PlaceBelow { hwnd, above: shell }),
            None => base,
        };
        match s.workerw_window_handle {
            Some(workerw) => with_icons.push(WindowCommand::PlaceBelow { hwnd: workerw, above: hwnd }),
            None => with_icons,
        }
    }
}

/// Attaching gives the engine the static edge exactly when it was asked for: a layered
/// ex-style rewrite carries the caller's `static_edge_mode`, the separate static-edge
/// rewrite appears only when it was requested, and when it was requested one of the two
/// gives the engine the edge (the layered rewrite from 24H2 on, the separate rewrite
/// before).
pub proof fn lemma_static_edge_only_when_requested(s: AttachWindow, hwnd: isize, static_edge_mode: bool)
    ensures
        forall|i: int|
            0 <= i < spec_attach_commands(s, hwnd, static_edge_mode).len() ==> {
                let c = #[trigger] spec_attach_commands(s, hwnd, static_edge_mode)[i];
                &&& (c matches WindowCommand::MakeLayeredExStyle { static_edge_mode: m, .. } ==> m
                    == static_edge_mode)
                &&& (c is AddStaticEdge ==> static_edge_mode && s.is_pre_24h2)
            },
        static_edge_mode && !s.is_pre_24h2 ==> spec_attach_commands(s, hwnd, static_edge_mode).contains(
            WindowCommand::MakeLayeredExStyle { hwnd, static_edge_mode: true },
        ),
        static_edge_mode && s.is_pre_24h2 ==> spec_attach_commands(s, hwnd, static_edge_mode).contains(
            WindowCommand::AddStaticEdge { hwnd },
        ),
{
    let cmds = spec_attach_commands(s, hwnd, static_edge_mode);
    if static_edge_mode && !s.is_pre_24h2 {
        assert(cmds[1] == WindowCommand::MakeLayeredExStyle { hwnd, static_edge_mode: true });
    }
    if static_edge_mode && s.is_pre_24h2 {
        assert(cmds[2] == WindowCommand::AddStaticEdge { hwnd });
    }
}

/// Where attaching puts the engine. Before 24H2 it is first made a child of the
/// `WorkerW` and then undecorated. From 24H2 on it is undecorated, made layered and
/// opaque, and only then made a child of `Progman`; it then goes directly below the icons
/// view, and the `WorkerW` goes directly below it.
pub proof fn lemma_attach_layering(s: AttachWindow, hwnd: isize, static_edge_mode: bool)
    ensures
        s.is_pre_24h2 ==> {
            let cmds = spec_attach_commands(s, hwnd, static_edge_mode);
            &&& cmds[0] == WindowCommand::SetParent { child: hwnd, parent: s.workerw_window_handle }
            &&& cmds[1] == WindowCommand::MakeChildStyle { hwnd }
        },
        !s.is_pre_24h2 ==> {
            let cmds = spec_attach_commands(s, hwnd, static_edge_mode);
            &&& cmds.len() >= 4
            &&& cmds[3] == WindowCommand::SetParent { child: hwnd, parent: s.progman_window_handle }
            &&& cmds.subrange(0, 3).contains(WindowCommand::MakeChildStyle { hwnd })
            &&& cmds.subrange(0, 3).contains(WindowCommand::MakeOpaque { hwnd })
            &&& (s.shell_view_window_handle matches Some(shell) ==> cmds.contains(
                WindowCommand::PlaceBelow { hwnd, above: shell },
            ))
            &&& (s.workerw_window_handle matches Some(w) ==> cmds.contains(
                WindowCommand::PlaceBelow { hwnd: w, above: hwnd },
            ))
        },
{
    let cmds = spec_attach_commands(s, hwnd, static_edge_mode);
    if !s.is_pre_24h2 {
        assert(cmds.subrange(0, 3)[0] == WindowCommand::MakeChildStyle { hwnd });
        assert(cmds.subrange(0, 3)[2] == WindowCommand::MakeOpaque { hwnd });
        if let Some(shell) = s.shell_view_window_handle {
            assert(cmds[4] == WindowCommand::PlaceBelow { hwnd, above: shell });
        }
        if let Some(w) = s.workerw_window_handle {
            assert(cmds[cmds.len() - 1] == WindowCommand::PlaceBelow { hwnd: w, above: hwnd });
        }
    }
}

/// Attaching issues nothing more than what it is for: before 24H2 the reparenting, the
/// style rewrite and, when asked for, the static edge; from 24H2 on the four preparing
/// operations and one z-order move for each of the icons view and the `WorkerW` that is
/// known.
pub proof fn lemma_attach_command_count(s: AttachWindow, hwnd: isize, static_edge_mode: bool)
    ensures
        s.is_pre_24h2 ==> spec_attach_commands(s, hwnd, static_edge_mode).len() == 2 + (if static_edge_mode {
            1int
        } else {
            0int
        }),
        !s.is_pre_24h2 ==> spec_attach_commands(s, hwnd, static_edge_mode).len() == 4 + (if s.shell_view_window_handle is Some {
            1int
        } else {
            0int
        }) + (if s.workerw_window_handle is Some {
            1int
        } else {
            0int
        }),
{
}

/// The engine window covers its monitor exactly without the static edge, and with it
/// reaches past every side of the monitor by the border thickness, which hides the
/// border.
pub proof fn lemma_placement_covers_monitor(monitor: MonitorInfo, static_edge_mode: bool, edge_x: i32, edge_y: i32)
    requires
        placement_fits(monitor, static_edge_mode, edge_x, edge_y),
    ensures
        ({
            let p = spec_wallpaper_placement(monitor, static_edge_mode, edge_x, edge_y);
            let (ex, ey) = if static_edge_mode { (edge_x as int, edge_y as int) } else { (0int, 0int) };
            &&& p.x == monitor.x - ex
            &&& p.y == monitor.y - ey
            &&& p.x + p.width == monitor.x + monitor.width + ex
            &&& p.y + p.height == monitor.y + monitor.height + ey
        }),
        !static_edge_mode ==> ({
            let p = spec_wallpaper_placement(monitor, static_edge_mode, edge_x, edge_y);
            p.x == monitor.x && p.y == monitor.y && p.width == monitor.width && p.height == monitor.height
        }),
{
}

/// The wallpaper target is the monitor at the requested index whenever that index names
/// one of the monitors; `None`, a negative index and an index past the last monitor, and
/// nothing else, select the whole virtual desktop.
pub proof fn lemma_target_index_choice(monitor_index: Option<i32>, count: nat)
    ensures
        (monitor_index matches Some(i) && 0 <= i < count) ==> spec_wallpaper_target_index(
            monitor_index,
            count,
        ) == Some(monitor_index->0 as int),
        !(monitor_index matches Some(i) && 0 <= i < count) ==> spec_wallpaper_target_index(
            monitor_index,
            count,
        ) is None,
{
}

/// Whether the cursor reading can be turned into monitor coordinates in `i32`.
pub open spec fn cursor_offsets_fit(s: AttachWindow, cursor: Option<Point>) -> bool {
    match cursor {
        None => true,
        Some(p) => {
            &&& fits_i32(p.x - s.desktop_x)
            &&& fits_i32(p.y - s.desktop_y)
            &&& match s.selected_monitor {
                None => true,
                Some(m) => fits_i32(p.x - s.desktop_x - m.x) && fits_i32(p.y - s.desktop_y - m.y),
            }
        },
    }
}

/// The cursor in coordinates relative to the selected monitor, or `None` when the cursor
/// could not be read or no monitor is selected.
pub open spec fn spec_relative_cursor(s: AttachWindow, cursor: Option<Point>) -> Option<Point> {
    match cursor {
        None => None,
        Some(p) => match s.selected_monitor {
            None => None,
            Some(m) => Some(
                Point {
                    x: (p.x - s.desktop_x - m.x) as i32,
                    y: (p.y - s.desktop_y - m.y) as i32,
                },
            ),
        },
    }
}

/// The relative cursor position and the offsets it was computed with give back the
/// screen position: screen = relative + desktop origin + monitor corner.
pub proof fn lemma_relative_cursor_round_trip(s: AttachWindow, cursor: Option<Point>)
    requires
        cursor_offsets_fit(s, cursor),
    ensures
        spec_relative_cursor(s, cursor) matches Some(r) ==> {
            &&& r.x + s.desktop_x + s.selected_monitor->0.x == cursor->0.x
            &&& r.y + s.desktop_y + s.selected_monitor->0.y == cursor->0.y
        },
        spec_relative_cursor(s, cursor) is Some <==> (cursor is Some && s.selected_monitor is Some),
{
}

impl AttachWindow {
    /// Whether the z-order watcher is running.
    pub open spec fn watcher_active(&self) -> bool {
        self.watcher_running
    }

    /// Whether the z-order watcher is running.
    pub fn is_watcher_running(&self) -> (r: bool)
        ensures
            r == self.watcher_active(),
    {
        self.watcher_running
    }

    /// The state after locating the desktop hierarchy: `Progman`, the icons view and the
    /// `WorkerW` found directly under `Progman`. Without such a `WorkerW` the system is
    /// older than 24H2 and the `WorkerW` is searched among the top-level windows.
    pub fn initialize(progman: isize, shell_view: Option<isize>, workerw: Option<isize>) -> (r:
        Self)
        ensures
            r.progman_window_handle == Some(progman),
            r.shell_view_window_handle == shell_view,
            r.workerw_window_handle == workerw,
            r.engine_window_handle is None,
            r.selected_monitor is None,
            r.desktop_x == 0,
            r.desktop_y == 0,
            r.current_mouse_state@ == seq![false, false, false, false, false],
            r.previous_mouse_state@ == seq![false, false, false, false, false],
            r.is_pre_24h2 == workerw is None,
            !r.watcher_active(),
    {
        let mut platform = AttachWindow::default();
        platform.progman_window_handle = Some(progman);
        platform.shell_view_window_handle = shell_view;
        platform.workerw_window_handle = workerw;
        if workerw.is_none() {
            platform.is_pre_24h2 = true;
        }
        platform
    }

    /// Whether the `WorkerW` still has to be searched among the top-level windows.
    pub fn needs_workerw_search(&self) -> (r: bool)
        ensures
            r == self.workerw_window_handle is None,
    {
        self.workerw_window_handle.is_none()
    }

    /// Visits one top-level window during the `WorkerW` search. When the window hosts the
    /// icons view, the `WorkerW` that follows it is recorded and the search stops
    /// (`false`); otherwise the search goes on (`true`).
    pub fn workerw_search_visit(&mut self, hosts_shell_view: bool, next_workerw: Option<isize>) -> (r:
        bool)
        ensures
            r == !hosts_shell_view,
            hosts_shell_view ==> final(self).workerw_window_handle == next_workerw,
            !hosts_shell_view ==> final(self).workerw_window_handle == old(
                self,
            ).workerw_window_handle,
            final(self).progman_window_handle == old(self).progman_window_handle,
            final(self).shell_view_window_handle == old(self).shell_view_window_handle,
            final(self).engine_window_handle == old(self).engine_window_handle,
            same_except_handles(*final(self), *old(self)),
    {
        if hosts_shell_view {
            self.workerw_window_handle = next_workerw;
            return false;
        }
        true
    }

    /// How the `WorkerW` search among the top-level windows went, from what `EnumWindows`
    /// returned. The visit that finds the `WorkerW` stops the enumeration, which
    /// `EnumWindows` reports as a failure, so its error counts only when no `WorkerW` was
    /// found.
    pub fn workerw_search_outcome<E>(&self, enumerated: Result<(), E>) -> (r: Result<(), E>)
        ensures
            match enumerated {
                Ok(()) => r is Ok,
                Err(e) => if self.workerw_window_handle is None {
                    r == Err::<(), E>(e)
                } else {
                    r is Ok
                },
            },
    {
        match enumerated {
            Ok(()) => Ok(()),
            Err(e) => {
                if self.workerw_window_handle.is_none() {
                    Err(e)
                } else {
                    Ok(())
                }
            },
        }
    }

    /// Ends initialisation: fails (`None`) when no `WorkerW` was found.
    pub fn finish_initialize(self) -> (r: Option<Self>)
        ensures
            self.workerw_window_handle is None ==> r is None,
            self.workerw_window_handle is Some ==> r == Some(self),
    {
        if self.workerw_window_handle.is_none() {
            return None;
        }
        Some(self)
    }

    /// Records `hwnd` as the engine window and lists the operations that attach it behind
    /// the desktop icons; `None` when `Progman` is unknown, in which case nothing is done
    /// and the state is left as it was.
    ///
    /// Before 24H2 the engine becomes an undecorated child of the `WorkerW`. From 24H2 on
    /// it becomes an opaque, layered, undecorated child of `Progman`, placed below the
    /// icons and above the `WorkerW` that holds the system wallpaper. With
    /// `static_edge_mode` the engine also gets the static edge, on both paths.
    pub fn configure_wallpaper_window(&mut self, hwnd: isize, static_edge_mode: bool) -> (r:
        Option<Vec<WindowCommand>>)
        ensures
            old(self).progman_window_handle is None ==> r is None && *final(self) == *old(self),
            old(self).progman_window_handle is Some ==> {
                &&& r is Some
                &&& r->0@ == spec_attach_commands(*old(self), hwnd, static_edge_mode)
                &&& final(self).engine_window_handle == Some(hwnd)
                &&& final(self).progman_window_handle == old(self).progman_window_handle
                &&& final(self).workerw_window_handle == old(self).workerw_window_handle
                &&& final(self).shell_view_window_handle == old(self).shell_view_window_handle
                &&& same_except_handles(*final(self), *old(self))
            },
    {
        if self.progman_window_handle.is_none() {
            return None;
        }
        self.engine_window_handle = Some(hwnd);
        let mut commands: Vec<WindowCommand> = Vec::new();
        if self.is_pre_24h2 {
            commands.push(WindowCommand::SetParent { child: hwnd, parent: self.workerw_window_handle });
            commands.push(WindowCommand::MakeChildStyle { hwnd });
            if static_edge_mode {
                commands.push(WindowCommand::AddStaticEdge { hwnd });
            }
        } else {
            commands.push(WindowCommand::MakeChildStyle { hwnd });
            commands.push(WindowCommand::MakeLayeredExStyle { hwnd, static_edge_mode });
            commands.push(WindowCommand::MakeOpaque { hwnd });
            commands.push(WindowCommand::SetParent { child: hwnd, parent: self.progman_window_handle });
            if let Some(shell) = self.shell_view_window_handle {
                commands.push(WindowCommand::PlaceBelow { hwnd, above: shell });
            }
            if let Some(workerw) = self.workerw_window_handle {
                commands.push(WindowCommand::PlaceBelow { hwnd: workerw, above: hwnd });
            }
        }
        assert(commands@ =~= spec_attach_commands(*old(self), hwnd, static_edge_mode));
        Some(commands)
    }

    /// After the attach operations succeeded: selects `monitor` and returns where the engine
    /// window goes. `edge_x` and `edge_y` are the border thickness (`SM_CXEDGE`,
    /// `SM_CYEDGE`), used only with the static edge.
    pub fn place_wallpaper_window(
        &mut self,
        monitor: &MonitorInfo,
        static_edge_mode: bool,
        edge_x: i32,
        edge_y: i32,
    ) -> (r: WindowPlacement)
        requires
            placement_fits(*monitor, static_edge_mode, edge_x, edge_y),
        ensures
            final(self).selected_monitor == Some(*monitor),
            r == spec_wallpaper_placement(*monitor, static_edge_mode, edge_x, edge_y),
            same_handles(*final(self), *old(self)),
            final(self).desktop_x == old(self).desktop_x,
            final(self).desktop_y == old(self).desktop_y,
            final(self).current_mouse_state@ == old(self).current_mouse_state@,
            final(self).previous_mouse_state@ == old(self).previous_mouse_state@,
            final(self).is_pre_24h2 == old(self).is_pre_24h2,
            final(self).watcher_active() == old(self).watcher_active(),
    {
        self.selected_monitor = Some(*monitor);
        let (ex, ey) = if static_edge_mode {
            (edge_x, edge_y)
        } else {
            (0, 0)
        };
        WindowPlacement {
            x: monitor.x - ex,
            y: monitor.y - ey,
            width: monitor.width + 2 * ex,
            height: monitor.height + 2 * ey,
        }
    }

    /// Attaches `hwnd` to the whole virtual desktop right after initialisation: enumerates
    /// the monitors (recording the desktop origin), targets the virtual desktop, records
    /// the engine window and the target, and returns what remains to be done on the
    /// windows. Enumeration errors are reported as [`AttachWindow::enumerate_monitors`]
    /// reports them.
    pub fn plan_auto_attach<E>(
        &mut self,
        hwnd: isize,
        static_edge_mode: bool,
        enumerated: Result<Vec<MonitorInfo>, E>,
        virtual_width: i32,
        virtual_height: i32,
        edge_x: i32,
        edge_y: i32,
    ) -> (r: Result<AutoAttachPlan, MonitorError<E>>)
        requires
            old(self).progman_window_handle is Some,
            enumerated matches Ok(ms) ==> monitors_normalizable(ms@),
            placement_fits(virtual_desktop_target(virtual_width, virtual_height), static_edge_mode, edge_x, edge_y),
        ensures
            match enumerated {
                Err(e) => r == Err::<AutoAttachPlan, MonitorError<E>>(MonitorError::Enumeration(e))
                    && *final(self) == *old(self),
                Ok(ms) => if ms@.len() == 0 {
                    r == Err::<AutoAttachPlan, MonitorError<E>>(MonitorError::NoMonitors)
                        && *final(self) == *old(self)
                } else {
                    &&& r matches Ok(plan) && {
                        &&& plan.target == virtual_desktop_target(virtual_width, virtual_height)
                        &&& plan.commands@ == spec_attach_commands(*old(self), hwnd, static_edge_mode)
                        &&& plan.placement == spec_wallpaper_placement(
                            virtual_desktop_target(virtual_width, virtual_height),
                            static_edge_mode,
                            edge_x,
                            edge_y,
                        )
                    }
                    &&& final(self).engine_window_handle == Some(hwnd)
                    &&& final(self).selected_monitor == Some(virtual_desktop_target(virtual_width, virtual_height))
                    &&& final(self).desktop_x == spec_min_x(ms@)
                    &&& final(self).desktop_y == spec_min_y(ms@)
                    &&& final(self).progman_window_handle == old(self).progman_window_handle
                    &&& final(self).workerw_window_handle == old(self).workerw_window_handle
                    &&& final(self).shell_view_window_handle == old(self).shell_view_window_handle
                    &&& final(self).current_mouse_state@ == old(self).current_mouse_state@
                    &&& final(self).previous_mouse_state@ == old(self).previous_mouse_state@
                    &&& final(self).is_pre_24h2 == old(self).is_pre_24h2
                    &&& final(self).watcher_active() == old(self).watcher_active()
                },
            },
    {
        let target = match self.get_wallpaper_target(None, enumerated, virtual_width, virtual_height) {
            Ok(t) => t,
            Err(e) => return Err(e),
        };
        let commands = self.configure_wallpaper_window(hwnd, static_edge_mode).unwrap();
        let placement = self.place_wallpaper_window(&target, static_edge_mode, edge_x, edge_y);
        Ok(AutoAttachPlan { target, commands, placement })
    }

    /// Takes the result of monitor enumeration: when it found monitors, records the virtual
    /// desktop origin (the smallest monitor corner) and returns the monitors moved so that
    /// the origin is `(0, 0)`; an enumeration error, or an enumeration that found no
    /// monitor, is reported with the state unchanged.
    pub fn enumerate_monitors<E>(&mut self, enumerated: Result<Vec<MonitorInfo>, E>) -> (r: Result<
        Vec<MonitorInfo>,
        MonitorError<E>,
    >)
        requires
            enumerated matches Ok(ms) ==> monitors_normalizable(ms@),
        ensures
            match enumerated {
                Err(e) => r == Err::<Vec<MonitorInfo>, MonitorError<E>>(MonitorError::Enumeration(e))
                    && *final(self) == *old(self),
                Ok(ms) => if ms@.len() == 0 {
                    r == Err::<Vec<MonitorInfo>, MonitorError<E>>(MonitorError::NoMonitors)
                        && *final(self) == *old(self)
                } else {
                    &&& r matches Ok(out) && out@ == normalized_monitors(ms@)
                    &&& final(self).desktop_x == spec_min_x(ms@)
                    &&& final(self).desktop_y == spec_min_y(ms@)
                    &&& same_handles(*final(self), *old(self))
                    &&& final(self).selected_monitor == old(self).selected_monitor
                    &&& final(self).current_mouse_state@ == old(self).current_mouse_state@
                    &&& final(self).previous_mouse_state@ == old(self).previous_mouse_state@
                    &&& final(self).is_pre_24h2 == old(self).is_pre_24h2
                    &&& final(self).watcher_active() == old(self).watcher_active()
                },
            },
    {
        match enumerated {
            Err(e) => Err(MonitorError::Enumeration(e)),
            Ok(monitors) => {
                if monitors.len() == 0 {
                    return Err(MonitorError::NoMonitors);
                }
                let (out, dx, dy) = normalize_monitors(monitors);
                self.desktop_x = dx;
                self.desktop_y = dy;
                Ok(out)
            },
        }
    }

    /// Picks the monitor to cover: the monitor at `monitor_index`, or the whole virtual
    /// desktop (`virtual_width` x `virtual_height`, from `SM_CXVIRTUALSCREEN` and
    /// `SM_CYVIRTUALSCREEN`) for `None`, a negative index or an index out of range.
    /// Monitors are enumerated first, which also records the desktop origin; enumeration
    /// errors are reported as [`AttachWindow::enumerate_monitors`] reports them.
    pub fn get_wallpaper_target<E>(
        &mut self,
        monitor_index: Option<i32>,
        enumerated: Result<Vec<MonitorInfo>, E>,
        virtual_width: i32,
        virtual_height: i32,
    ) -> (r: Result<MonitorInfo, MonitorError<E>>)
        requires
            enumerated matches Ok(ms) ==> monitors_normalizable(ms@),
        ensures
            match enumerated {
                Err(e) => r == Err::<MonitorInfo, MonitorError<E>>(MonitorError::Enumeration(e))
                    && *final(self) == *old(self),
                Ok(ms) => if ms@.len() == 0 {
                    r == Err::<MonitorInfo, MonitorError<E>>(MonitorError::NoMonitors)
                        && *final(self) == *old(self)
                } else {
                    &&& r == Ok::<MonitorInfo, MonitorError<E>>(
                        match spec_wallpaper_target_index(monitor_index, ms@.len()) {
                            Some(i) => normalized_monitors(ms@)[i],
                            None => virtual_desktop_target(virtual_width, virtual_height),
                        },
                    )
                    &&& final(self).desktop_x == spec_min_x(ms@)
                    &&& final(self).desktop_y == spec_min_y(ms@)
                    &&& same_handles(*final(self), *old(self))
                    &&& final(self).selected_monitor == old(self).selected_monitor
                    &&& final(self).current_mouse_state@ == old(self).current_mouse_state@
                    &&& final(self).previous_mouse_state@ == old(self).previous_mouse_state@
                    &&& final(self).is_pre_24h2 == old(self).is_pre_24h2
                    &&& final(self).watcher_active() == old(self).watcher_active()
                },
            },
    {
        let monitors = match self.enumerate_monitors(enumerated) {
            Ok(ms) => ms,
            Err(e) => return Err(e),
        };
        Ok(select_wallpaper_target(monitor_index, &monitors, virtual_width, virtual_height))
    }

    /// Whether the handles the z-order watcher needs are known: the icons view, the engine
    /// and the window to reparent the engine to (the `WorkerW` before 24H2, `Progman` after).
    pub open spec fn watcher_handles_known(&self) -> bool {
        &&& self.shell_view_window_handle is Some
        &&& self.engine_window_handle is Some
        &&& self.is_pre_24h2 ==> self.workerw_window_handle is Some
        &&& !self.is_pre_24h2 ==> self.progman_window_handle is Some
    }

    /// Starts the z-order watcher: fails when one is already running, or when a handle it
    /// needs is unknown; otherwise marks it running and returns the icons view, the engine
    /// window and the window to reparent the engine to (the `WorkerW` before 24H2,
    /// `Progman` after).
    pub fn start_watcher(&mut self) -> (r: Result<WatcherTargets, WatcherError>)
        ensures
            old(self).watcher_active() ==> r == Err::<WatcherTargets, WatcherError>(
                WatcherError::AlreadyRunning,
            ) && *final(self) == *old(self),
            !old(self).watcher_active() && !old(self).watcher_handles_known() ==> r == Err::<
                WatcherTargets,
                WatcherError,
            >(WatcherError::MissingHandles) && *final(self) == *old(self),
            !old(self).watcher_active() && old(self).watcher_handles_known() ==> {
                &&& final(self).watcher_active()
                &&& r == Ok::<WatcherTargets, WatcherError>(
                    WatcherTargets {
                        shell_def_view: old(self).shell_view_window_handle->0,
                        engine: old(self).engine_window_handle->0,
                        parent: if old(self).is_pre_24h2 {
                            old(self).workerw_window_handle->0
                        } else {
                            old(self).progman_window_handle->0
                        },
                    },
                )
                &&& same_handles(*final(self), *old(self))
                &&& final(self).selected_monitor == old(self).selected_monitor
                &&& final(self).desktop_x == old(self).desktop_x
                &&& final(self).desktop_y == old(self).desktop_y
                &&& final(self).current_mouse_state@ == old(self).current_mouse_state@
                &&& final(self).previous_mouse_state@ == old(self).previous_mouse_state@
                &&& final(self).is_pre_24h2 == old(self).is_pre_24h2
            },
    {
        if self.watcher_running {
            return Err(WatcherError::AlreadyRunning);
        }
        let shell_def_view = match self.shell_view_window_handle {
            Some(h) => h,
            None => return Err(WatcherError::MissingHandles),
        };
        let engine = match self.engine_window_handle {
            Some(h) => h,
            None => return Err(WatcherError::MissingHandles),
        };
        let parent_handle = if self.is_pre_24h2 {
            self.workerw_window_handle
        } else {
            self.progman_window_handle
        };
        let parent = match parent_handle {
            Some(h) => h,
            None => return Err(WatcherError::MissingHandles),
        };
        self.watcher_running = true;
        Ok(WatcherTargets { shell_def_view, engine, parent })
    }

    /// Stops the z-order watcher: fails when none is running; otherwise marks it stopped,
    /// after which the caller signals the watcher thread and waits for it.
    pub fn stop_watcher(&mut self) -> (r: Result<(), WatcherError>)
        ensures
            !old(self).watcher_active() ==> r == Err::<(), WatcherError>(WatcherError::NotStarted)
                && *final(self) == *old(self),
            old(self).watcher_active() ==> {
                &&& r == Ok::<(), WatcherError>(())
                &&& !final(self).watcher_active()
                &&& same_handles(*final(self), *old(self))
                &&& final(self).selected_monitor == old(self).selected_monitor
                &&& final(self).desktop_x == old(self).desktop_x
                &&& final(self).desktop_y == old(self).desktop_y
                &&& final(self).current_mouse_state@ == old(self).current_mouse_state@
                &&& final(self).previous_mouse_state@ == old(self).previous_mouse_state@
                &&& final(self).is_pre_24h2 == old(self).is_pre_24h2
            },
    {
        if self.watcher_running {
            self.watcher_running = false;
            Ok(())
        } else {
            Err(WatcherError::NotStarted)
        }
    }

    /// First step of cleanup: ends the z-order watcher, if one runs, and says what remains
    /// to be done on the system: whether the watcher thread must be signalled and joined,
    /// and whether the desktop wallpaper is refreshed (only when an engine window was
    /// configured). The window handles are forgotten by [`AttachWindow::cleanup`] once the
    /// wallpaper was refreshed.
    pub fn begin_cleanup(&mut self) -> (r: CleanupSteps)
        ensures
            r.join_watcher == old(self).watcher_active(),
            r.refresh_wallpaper == (old(self).engine_window_handle is Some),
            !final(self).watcher_active(),
            same_handles(*final(self), *old(self)),
            final(self).selected_monitor == old(self).selected_monitor,
            final(self).desktop_x == old(self).desktop_x,
            final(self).desktop_y == old(self).desktop_y,
            final(self).current_mouse_state@ == old(self).current_mouse_state@,
            final(self).previous_mouse_state@ == old(self).previous_mouse_state@,
            final(self).is_pre_24h2 == old(self).is_pre_24h2,
    {
        let join_watcher = self.watcher_running;
        self.watcher_running = false;
        CleanupSteps { join_watcher, refresh_wallpaper: self.engine_window_handle.is_some() }
    }

    /// Forgets the desktop hierarchy and the engine window, and ends the z-order watcher;
    /// everything else is kept.
    pub fn cleanup(&mut self)
        ensures
            final(self).progman_window_handle is None,
            final(self).workerw_window_handle is None,
            final(self).shell_view_window_handle is None,
            final(self).engine_window_handle is None,
            !final(self).watcher_active(),
            final(self).selected_monitor == old(self).selected_monitor,
            final(self).desktop_x == old(self).desktop_x,
            final(self).desktop_y == old(self).desktop_y,
            final(self).current_mouse_state@ == old(self).current_mouse_state@,
            final(self).previous_mouse_state@ == old(self).previous_mouse_state@,
            final(self).is_pre_24h2 == old(self).is_pre_24h2,
    {
        self.progman_window_handle = None;
        self.workerw_window_handle = None;
        self.shell_view_window_handle = None;
        self.engine_window_handle = None;
        self.watcher_running = false;
    }

    /// The engine supports animated wallpapers.
    pub fn supports_dynamic_wallpaper() -> (r: bool)
        ensures
            r,
    {
        true
    }

    /// The engine supports several monitors.
    pub fn supports_multi_monitor() -> (r: bool)
        ensures
            r,
    {
        true
    }

    /// True when `button` went from released to pressed between the last two samples.
    pub fn is_mouse_button_pressed(&self, button: i32) -> (r: bool)
        ensures
            r == button_pressed(self.current_mouse_state@, self.previous_mouse_state@, button),
    {
        if button < 0 || button >= 5 {
            return false;
        }
        let button = button as usize;
        self.current_mouse_state[button] && !self.previous_mouse_state[button]
    }

    /// True while `button` is held down in the latest sample.
    pub fn is_mouse_button_down(&self, button: i32) -> (r: bool)
        ensures
            r == button_down(self.current_mouse_state@, button),
    {
        if button < 0 || button >= 5 {
            return false;
        }
        self.current_mouse_state[button as usize]
    }

    /// True when `button` went from pressed to released between the last two samples.
    pub fn is_mouse_button_released(&self, button: i32) -> (r: bool)
        ensures
            r == button_released(self.current_mouse_state@, self.previous_mouse_state@, button),
    {
        if button < 0 || button >= 5 {
            return false;
        }
        let button = button as usize;
        !self.current_mouse_state[button] && self.previous_mouse_state[button]
    }

    /// True while `button` is not held down in the latest sample.
    pub fn is_mouse_button_up(&self, button: i32) -> (r: bool)
        ensures
            r == button_up(self.current_mouse_state@, button),
    {
        if button < 0 || button >= 5 {
            return false;
        }
        !self.current_mouse_state[button as usize]
    }

    /// Whether `cursor` can be turned into monitor coordinates in `i32` (what the cursor
    /// queries require).
    pub fn cursor_fits(&self, cursor: Option<Point>) -> (r: bool)
        ensures
            r == cursor_offsets_fit(*self, cursor),
    {
        match cursor {
            None => true,
            Some(p) => {
                let x = p.x as i64 - self.desktop_x as i64;
                let y = p.y as i64 - self.desktop_y as i64;
                let lo = i32::MIN as i64;
                let hi = i32::MAX as i64;
                if !(lo <= x && x <= hi && lo <= y && y <= hi) {
                    return false;
                }
                match self.selected_monitor {
                    None => true,
                    Some(m) => {
                        let rx = x - m.x as i64;
                        let ry = y - m.y as i64;
                        lo <= rx && rx <= hi && lo <= ry && ry <= hi
                    },
                }
            },
        }
    }

    /// The cursor position `cursor` (what `GetCursorPos` gave, `None` if it failed) in
    /// coordinates relative to the selected monitor; `None` without a selected monitor.
    pub fn get_relative_cursor_pos(&self, cursor: Option<Point>) -> (r: Option<Point>)
        requires
            cursor_offsets_fit(*self, cursor),
        ensures
            r == spec_relative_cursor(*self, cursor),
    {
        let p = match cursor {
            Some(p) => p,
            None => return None,
        };
        let x = p.x - self.desktop_x;
        let y = p.y - self.desktop_y;
        match self.selected_monitor {
            Some(m) => Some(Point { x: x - m.x, y: y - m.y }),
            None => None,
        }
    }

    /// The cursor's x relative to the selected monitor, or 0 when it is unknown.
    pub fn get_mouse_x(&self, cursor: Option<Point>) -> (r: i32)
        requires
            cursor_offsets_fit(*self, cursor),
        ensures
            r == match spec_relative_cursor(*self, cursor) {
                Some(p) => p.x,
                None => 0,
            },
    {
        match self.get_relative_cursor_pos(cursor) {
            Some(p) => p.x,
            None => 0,
        }
    }

    /// The cursor's y relative to the selected monitor, or 0 when it is unknown.
    pub fn get_mouse_y(&self, cursor: Option<Point>) -> (r: i32)
        requires
            cursor_offsets_fit(*self, cursor),
        ensures
            r == match spec_relative_cursor(*self, cursor) {
                Some(p) => p.y,
                None => 0,
            },
    {
        match self.get_relative_cursor_pos(cursor) {
            Some(p) => p.y,
            None => 0,
        }
    }

    /// Starts a new input frame: the current sample becomes the previous one, and button
    /// `i` of the new sample is held when `async_key_states[i]` (what `GetAsyncKeyState`
    /// returned for `get_virtual_key_for_mouse_button(i)`) has its high bit set.
    pub fn update_mouse_state(&mut self, async_key_states: [i16; 5])
        ensures
            final(self).previous_mouse_state@ == old(self).current_mouse_state@,
            forall|i: int|
                0 <= i < 5 ==> #[trigger] final(self).current_mouse_state[i] == async_key_is_down(
                    async_key_states[i],
                ),
            same_handles(*final(self), *old(self)),
            final(self).selected_monitor == old(self).selected_monitor,
            final(self).desktop_x == old(self).desktop_x,
            final(self).desktop_y == old(self).desktop_y,
            final(self).is_pre_24h2 == old(self).is_pre_24h2,
            final(self).watcher_active() == old(self).watcher_active(),
    {
        self.previous_mouse_state = self.current_mouse_state;
        let mut i: usize = 0;
        while i < 5
            invariant
                0 <= i <= 5,
                self.previous_mouse_state@ == old(self).current_mouse_state@,
                forall|j: int|
                    0 <= j < i ==> #[trigger] self.current_mouse_state[j] == async_key_is_down(
                        async_key_states[j],
                    ),
                same_handles(*self, *old(self)),
                self.selected_monitor == old(self).selected_monitor,
                self.desktop_x == old(self).desktop_x,
                self.desktop_y == old(self).desktop_y,
                self.is_pre_24h2 == old(self).is_pre_24h2,
                self.watcher_active() == old(self).watcher_active(),
            decreases 5 - i,
        {
            self.current_mouse_state[i] = is_async_key_down(async_key_states[i]);
            i += 1;
        }
    }
}

} // verus!
