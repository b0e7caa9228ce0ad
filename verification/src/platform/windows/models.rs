//! The earlier platform state, `WindowsPlatform`, whose monitors carry no work-area
//! origin, whose cursor is read from the caret, and whose operations ignore Win32
//! failures.
use crate::platform::windows::attach::{
    button_down, button_in_range, button_pressed, button_released, fits_i32, Point, Rect, WindowCommand,
};
use crate::platform::windows::constants::{VK_LBUTTON, VK_MBUTTON, VK_RBUTTON, VK_XBUTTON1, VK_XBUTTON2};
use vstd::prelude::*;

verus! {

/// Display monitor bounds and work-area size, in virtual-desktop pixels.
#[derive(Clone, Copy, Debug, PartialEq, Eq, Structural)]
pub struct MonitorInfo {
    /// X coordinate of the monitor's top-left corner.
    pub x: i32,
    /// Y coordinate of the monitor's top-left corner.
    pub y: i32,
    /// Monitor width in pixels.
    pub width: i32,
    /// Monitor height in pixels.
    pub height: i32,
    /// Work area width.
    pub work_width: i32,
    /// Work area height.
    pub work_height: i32,
}

impl Default for MonitorInfo {
    fn default() -> (r: Self)
        ensures
            r == (MonitorInfo { x: 0, y: 0, width: 0, height: 0, work_width: 0, work_height: 0 }),
    {
        MonitorInfo { x: 0, y: 0, width: 0, height: 0, work_width: 0, work_height: 0 }
    }
}

/// Occlusion rectangles collected for one monitor.
#[derive(Debug)]
pub struct FullscrennOcclusionData {
    pub monitor: MonitorInfo,
    pub occluded_rects: Vec<Rect>,
}

impl Default for FullscrennOcclusionData {
    fn default() -> (r: Self)
        ensures
            r.monitor == (MonitorInfo { x: 0, y: 0, width: 0, height: 0, work_width: 0, work_height: 0 }),
            r.occluded_rects@.len() == 0,
    {
        FullscrennOcclusionData { monitor: MonitorInfo::default(), occluded_rects: Vec::new() }
    }
}

/// Platform state of an engine window attached behind the desktop icons (window handles
/// kept as the integer values of their `HWND`s).
#[derive(Debug)]
pub struct WindowsPlatform {
    pub progman_window_handle: Option<isize>,
    pub workerw_window_handle: Option<isize>,
    pub shell_view_whidow_handle: Option<isize>,
    pub engine_window_handle: Option<isize>,
    pub selected_monitor: Option<MonitorInfo>,
    pub desktop_x: i32,
    pub desktop_y: i32,
    pub current_mouse_state: [bool; 5],
    pub previous_mouse_state: [bool; 5],
    pub is_pre_24h2: bool,
}

/// The same state, under the name the free functions of `monitors` use.
pub type GlobalVariables = WindowsPlatform;

impl Default for WindowsPlatform {
    fn default() -> (r: Self)
        ensures
            r.progman_window_handle is None,
            r.workerw_window_handle is None,
            r.shell_view_whidow_handle is None,
            r.engine_window_handle is None,
            r.selected_monitor is None,
            r.desktop_x == 0,
            r.desktop_y == 0,
            r.current_mouse_state@ == seq![false, false, false, false, false],
            r.previous_mouse_state@ == seq![false, false, false, false, false],
            !r.is_pre_24h2,
    {
        WindowsPlatform {
            progman_window_handle: None,
            workerw_window_handle: None,
            shell_view_whidow_handle: None,
            engine_window_handle: None,
            selected_monitor: None,
            desktop_x: 0,
            desktop_y: 0,
            current_mouse_state: [false, false, false, false, false],
            previous_mouse_state: [false, false, false, false, false],
            is_pre_24h2: false,
        }
    }
}

/// The smallest monitor `x` of a list, starting from `i32::MAX`.
pub open spec fn spec_min_x(monitors: Seq<MonitorInfo>) -> int
    decreases monitors.len(),
{
    if monitors.len() == 0 {
        i32::MAX as int
    } else {
        let rest = spec_min_x(monitors.drop_last());
        let x = monitors.last().x as int;
        if x < rest {
            x
        } else {
            rest
        }
    }
}

/// The smallest monitor `y` of a list, starting from `i32::MAX`.
pub open spec fn spec_min_y(monitors: Seq<MonitorInfo>) -> int
    decreases monitors.len(),
{
    if monitors.len() == 0 {
        i32::MAX as int
    } else {
        let rest = spec_min_y(monitors.drop_last());
        let y = monitors.last().y as int;
        if y < rest {
            y
        } else {
            rest
        }
    }
}

/// Whether every monitor can be moved to desktop-relative coordinates in `i32`.
pub open spec fn monitors_normalizable(monitors: Seq<MonitorInfo>) -> bool {
    forall|i: int|
        0 <= i < monitors.len() ==> #[trigger] monitors[i].x - spec_min_x(monitors) <= i32::MAX
            && monitors[i].y - spec_min_y(monitors) <= i32::MAX
}

/// The monitors moved so that the virtual desktop starts at `(0, 0)`.
pub open spec fn normalized_monitors(monitors: Seq<MonitorInfo>) -> Seq<MonitorInfo> {
    monitors.map_values(
        |m: MonitorInfo|
            MonitorInfo {
                x: (m.x - spec_min_x(monitors)) as i32,
                y: (m.y - spec_min_y(monitors)) as i32,
                ..m
            },
    )
}

/// The smallest `x` and `y` are at most every monitor's.
pub proof fn lemma_min_bounds(monitors: Seq<MonitorInfo>)
    ensures
        spec_min_x(monitors) <= i32::MAX,
        spec_min_y(monitors) <= i32::MAX,
        forall|i: int| 0 <= i < monitors.len() ==> spec_min_x(monitors) <= #[trigger] monitors[i].x,
        forall|i: int| 0 <= i < monitors.len() ==> spec_min_y(monitors) <= #[trigger] monitors[i].y,
    decreases monitors.len(),
{
    if monitors.len() > 0 {
        lemma_min_bounds(monitors.drop_last());
        let rest = monitors.drop_last();
        assert forall|i: int| 0 <= i < monitors.len() implies spec_min_x(monitors)
            <= #[trigger] monitors[i].x by {
            if i < monitors.len() - 1 {
                assert(rest[i] == monitors[i]);
            }
        }
        assert forall|i: int| 0 <= i < monitors.len() implies spec_min_y(monitors)
            <= #[trigger] monitors[i].y by {
            if i < monitors.len() - 1 {
                assert(rest[i] == monitors[i]);
            }
        }
    }
}

/// Moves monitors so that the virtual desktop starts at `(0, 0)`; returns them with the
/// subtracted offset (`i32::MAX` for an empty list).
pub fn normalize_monitors(monitors: Vec<MonitorInfo>) -> (r: (Vec<MonitorInfo>, i32, i32))
    requires
        monitors_normalizable(monitors@),
    ensures
        r.1 == spec_min_x(monitors@),
        r.2 == spec_min_y(monitors@),
        r.0@ == normalized_monitors(monitors@),
{
    let mut desktop_x: i32 = i32::MAX;
    let mut desktop_y: i32 = i32::MAX;
    let n = monitors.len();
    let mut i: usize = 0;
    while i < n
        invariant
            n == monitors@.len(),
            0 <= i <= n,
            desktop_x == spec_min_x(monitors@.take(i as int)),
            desktop_y == spec_min_y(monitors@.take(i as int)),
        decreases n - i,
    {
        proof {
            lemma_min_bounds(monitors@.take(i as int));
            assert(monitors@.take(i + 1).drop_last() =~= monitors@.take(i as int));
        }
        if monitors[i].x < desktop_x {
            desktop_x = monitors[i].x;
        }
        if monitors[i].y < desktop_y {
            desktop_y = monitors[i].y;
        }
        i += 1;
    }
    assert(monitors@.take(n as int) =~= monitors@);
    proof {
        lemma_min_bounds(monitors@);
    }
    let mut out: Vec<MonitorInfo> = Vec::new();
    let mut j: usize = 0;
    while j < n
        invariant
            n == monitors@.len(),
            0 <= j <= n,
            desktop_x == spec_min_x(monitors@),
            desktop_y == spec_min_y(monitors@),
            monitors_normalizable(monitors@),
            forall|k: int| 0 <= k < n ==> desktop_x <= #[trigger] monitors@[k].x,
            forall|k: int| 0 <= k < n ==> desktop_y <= #[trigger] monitors@[k].y,
            out@.len() == j,
            forall|k: int|
                0 <= k < j ==> #[trigger] out@[k] == (MonitorInfo {
                    x: (monitors@[k].x - desktop_x) as i32,
                    y: (monitors@[k].y - desktop_y) as i32,
                    ..monitors@[k]
                }),
        decreases n - j,
    {
        let m = monitors[j];
        assert(m.x - desktop_x <= i32::MAX && m.y - desktop_y <= i32::MAX);
        out.push(MonitorInfo { x: m.x - desktop_x, y: m.y - desktop_y, ..m });
        j += 1;
    }
    assert(out@ =~= normalized_monitors(monitors@));
    (out, desktop_x, desktop_y)
}

/// Whether the monitors can be moved to desktop-relative coordinates without leaving the
/// `i32` range (what monitor enumeration requires).
pub fn monitors_fit_desktop(monitors: &Vec<MonitorInfo>) -> (r: bool)
    ensures
        r == monitors_normalizable(monitors@),
{
    let mut min_x: i32 = i32::MAX;
    let mut min_y: i32 = i32::MAX;
    let n = monitors.len();
    let mut i: usize = 0;
    while i < n
        invariant
            n == monitors@.len(),
            0 <= i <= n,
            min_x == spec_min_x(monitors@.take(i as int)),
            min_y == spec_min_y(monitors@.take(i as int)),
        decreases n - i,
    {
        proof {
            lemma_min_bounds(monitors@.take(i as int));
            assert(monitors@.take(i + 1).drop_last() =~= monitors@.take(i as int));
        }
        if monitors[i].x < min_x {
            min_x = monitors[i].x;
        }
        if monitors[i].y < min_y {
            min_y = monitors[i].y;
        }
        i += 1;
    }
    assert(monitors@.take(n as int) =~= monitors@);
    let mut j: usize = 0;
    while j < n
        invariant
            n == monitors@.len(),
            0 <= j <= n,
            min_x == spec_min_x(monitors@),
            min_y == spec_min_y(monitors@),
            forall|k: int|
                0 <= k < j ==> #[trigger] monitors@[k].x - spec_min_x(monitors@) <= i32::MAX
                    && monitors@[k].y - spec_min_y(monitors@) <= i32::MAX,
        decreases n - j,
    {
        if (monitors[j].x as i64) - (min_x as i64) > i32::MAX as i64 || (monitors[j].y as i64) - (
        min_y as i64) > i32::MAX as i64 {
            return false;
        }
        j += 1;
    }
    true
}

/// Whether a position reading can be turned into monitor coordinates in `i32`; the
/// selected monitor must be known whenever the reading succeeded.
pub open spec fn position_offsets_fit(s: WindowsPlatform, reading: Option<Point>) -> bool {
    match reading {
        None => true,
        Some(p) => match s.selected_monitor {
            None => false,
            Some(m) => {
                &&& fits_i32(p.x - s.desktop_x)
                &&& fits_i32(p.y - s.desktop_y)
                &&& fits_i32(p.x - s.desktop_x - m.x)
                &&& fits_i32(p.y - s.desktop_y - m.y)
            },
        },
    }
}

/// A position reading in coordinates relative to the selected monitor.
pub open spec fn spec_relative_position(s: WindowsPlatform, reading: Option<Point>) -> Option<Point> {
    match reading {
        None => None,
        Some(p) => Some(
            Point {
                x: (p.x - s.desktop_x - s.selected_monitor->0.x) as i32,
                y: (p.y - s.desktop_y - s.selected_monitor->0.y) as i32,
            },
        ),
    }
}

/// Whether the state fields other than the window handles are the same.
pub open spec fn same_except_handles(a: WindowsPlatform, b: WindowsPlatform) -> bool {
    &&& a.selected_monitor == b.selected_monitor
    &&& a.desktop_x == b.desktop_x
    &&& a.desktop_y == b.desktop_y
    &&& a.current_mouse_state@ == b.current_mouse_state@
    &&& a.previous_mouse_state@ == b.previous_mouse_state@
    &&& a.is_pre_24h2 == b.is_pre_24h2
}

/// Whether the window handles are the same.
pub open spec fn same_handles(a: WindowsPlatform, b: WindowsPlatform) -> bool {
    &&& a.progman_window_handle == b.progman_window_handle
    &&& a.workerw_window_handle == b.workerw_window_handle
    &&& a.shell_view_whidow_handle == b.shell_view_whidow_handle
    &&& a.engine_window_handle == b.engine_window_handle
}

/// The operations that attach `hwnd` behind the icons, in order (no static edge and no
/// layered-window attributes).
pub open spec fn spec_attach_commands(s: WindowsPlatform, hwnd: isize) -> Seq<WindowCommand> {
    if s.is_pre_24h2 {
        seq![
            WindowCommand::SetParent { child: hwnd, parent: s.workerw_window_handle },
            WindowCommand::MakeChildStyle { hwnd },
        ]
    } else {
        let base = seq![
            WindowCommand::MakeChildStyle { hwnd },
            WindowCommand::MakeLayeredExStyle { hwnd, static_edge_mode: false },
            WindowCommand::SetParent { child: hwnd, parent: s.progman_window_handle },
        ];
        let with_icons = match s.shell_view_whidow_handle {
            Some(shell) => base.push(WindowCommand::PlaceBelow { hwnd, above: shell }),
            None => base,
        };
        match s.workerw_window_handle {
            Some(workerw) => with_icons.push(WindowCommand::PlaceBelow { hwnd: workerw, above: hwnd }),
            None => with_icons,
        }
    }
}

impl WindowsPlatform {
    /// Records the desktop hierarchy found: `Progman`, the icons view, and the lookup of
    /// the `WorkerW` under `Progman`. When that lookup failed, the system is taken as older
    /// than 24H2 and its error is handed back.
    pub fn initialize<E>(&mut self, progman: isize, shell_view: Option<isize>, workerw: Result<isize, E>) -> (r:
        Result<(), E>)
        ensures
            final(self).progman_window_handle == Some(progman),
            final(self).shell_view_whidow_handle == shell_view,
            final(self).engine_window_handle == old(self).engine_window_handle,
            final(self).selected_monitor == old(self).selected_monitor,
            final(self).desktop_x == old(self).desktop_x,
            final(self).desktop_y == old(self).desktop_y,
            final(self).current_mouse_state@ == old(self).current_mouse_state@,
            final(self).previous_mouse_state@ == old(self).previous_mouse_state@,
            match workerw {
                Ok(w) => r == Ok::<(), E>(()) && final(self).workerw_window_handle == Some(w)
                    && final(self).is_pre_24h2 == old(self).is_pre_24h2,
                Err(e) => r == Err::<(), E>(e) && final(self).workerw_window_handle == old(
                    self,
                ).workerw_window_handle && final(self).is_pre_24h2,
            },
    {
        self.progman_window_handle = Some(progman);
        self.shell_view_whidow_handle = shell_view;
        match workerw {
            Ok(w) => {
                self.workerw_window_handle = Some(w);
                Ok(())
            },
            Err(e) => {
                self.is_pre_24h2 = true;
                Err(e)
            },
        }
    }

    /// Records the virtual desktop origin (the smallest monitor corner) and returns the
    /// monitors moved so that it is `(0, 0)`.
    pub fn enumerate_monitors(&mut self, monitors: Vec<MonitorInfo>) -> (r: Vec<MonitorInfo>)
        requires
            monitors_normalizable(monitors@),
        ensures
            r@ == normalized_monitors(monitors@),
            final(self).desktop_x == spec_min_x(monitors@),
            final(self).desktop_y == spec_min_y(monitors@),
            same_handles(*final(self), *old(self)),
            final(self).selected_monitor == old(self).selected_monitor,
            final(self).current_mouse_state@ == old(self).current_mouse_state@,
            final(self).previous_mouse_state@ == old(self).previous_mouse_state@,
            final(self).is_pre_24h2 == old(self).is_pre_24h2,
    {
        let (out, dx, dy) = normalize_monitors(monitors);
        self.desktop_x = dx;
        self.desktop_y = dy;
        out
    }

    /// The engine supports animated wallpapers.
    pub fn supports_dynamuc_wallpaper() -> (r: bool)
        ensures
            r,
    {
        true
    }

    /// The engine supports several monitors.
    pub fn supports_multi_monito() -> (r: bool)
        ensures
            r,
    {
        true
    }

    /// True when `button` went from released to pressed between the last two samples.
    pub fn is_mouse_button_pressed(&self, button: i32) -> (r: bool)
        ensures
            r == button_pressed(self.current_mouse_state@, self.previous_mouse_state@, button),
    {
        if button < 0 || button >= 5 {
            return false;
        }
        let button = button as usize;
        self.current_mouse_state[button] && !self.previous_mouse_state[button]
    }

    /// True while `button` is held down in the latest sample.
    pub fn is_mouse_button_donw(&self, button: i32) -> (r: bool)
        ensures
            r == button_down(self.current_mouse_state@, button),
    {
        if button < 0 || button >= 5 {
            return false;
        }
        self.current_mouse_state[button as usize]
    }

    /// True when `button` went from pressed to released between the last two samples.
    pub fn is_mouse_button_released(&self, button: i32) -> (r: bool)
        ensures
            r == button_released(self.current_mouse_state@, self.previous_mouse_state@, button),
    {
        if button < 0 || button >= 5 {
            return false;
        }
        let button = button as usize;
        !self.current_mouse_state[button] && self.previous_mouse_state[button]
    }

    /// True while `button` is not held down in the latest sample. Its range check never
    /// rejects anything, so `button` must be a tracked button.
    pub fn is_mouse_button_up(&self, button: i32) -> (r: bool)
        requires
            button_in_range(button),
        ensures
            r == !self.current_mouse_state[button as int],
    {
        if button < 0 && button >= 5 {
            return false;
        }
        !self.current_mouse_state[button as usize]
    }

    /// Whether a position reading can be turned into monitor coordinates (what the
    /// position queries require): the selected monitor is known whenever the reading
    /// succeeded, and no offset leaves the `i32` range.
    pub fn position_fits(&self, reading: Option<Point>) -> (r: bool)
        ensures
            r == position_offsets_fit(*self, reading),
    {
        match reading {
            None => true,
            Some(p) => match self.selected_monitor {
                None => false,
                Some(m) => {
                    let lo = i32::MIN as i64;
                    let hi = i32::MAX as i64;
                    let x = p.x as i64 - self.desktop_x as i64;
                    let y = p.y as i64 - self.desktop_y as i64;
                    let rx = x - m.x as i64;
                    let ry = y - m.y as i64;
                    lo <= x && x <= hi && lo <= y && y <= hi && lo <= rx && rx <= hi && lo <= ry
                        && ry <= hi
                },
            },
        }
    }

    /// The caret position `caret` (what `GetCaretPos` gave, `None` if it failed) relative
    /// to the selected monitor.
    pub fn get_relative_cursor_pos(&self, caret: Option<Point>) -> (r: Option<Point>)
        requires
            position_offsets_fit(*self, caret),
        ensures
            r == spec_relative_position(*self, caret),
    {
        match caret {
            None => None,
            Some(p) => {
                let x = p.x - self.desktop_x;
                let y = p.y - self.desktop_y;
                let m = self.selected_monitor.unwrap();
                Some(Point { x: x - m.x, y: y - m.y })
            },
        }
    }

    /// The relative x of the caret, or 0 when it could not be read.
    pub fn get_mouse_x(&self, caret: Option<Point>) -> (r: i32)
        requires
            position_offsets_fit(*self, caret),
        ensures
            r == match spec_relative_position(*self, caret) {
                Some(p) => p.x,
                None => 0,
            },
    {
        match self.get_relative_cursor_pos(caret) {
            Some(p) => p.x,
            None => 0,
        }
    }

    /// The relative y of the caret, or 0 when it could not be read.
    pub fn get_mouse_y(&self, caret: Option<Point>) -> (r: i32)
        requires
            position_offsets_fit(*self, caret),
        ensures
            r == match spec_relative_position(*self, caret) {
                Some(p) => p.y,
                None => 0,
            },
    {
        match self.get_relative_cursor_pos(caret) {
            Some(p) => p.y,
            None => 0,
        }
    }

    /// Whether cleanup refreshes the wallpaper and forgets the handles: only when an engine
    /// window was configured.
    pub fn restores_wallpaper_on_cleanup(&self) -> (r: bool)
        ensures
            r == self.engine_window_handle is Some,
    {
        self.engine_window_handle.is_some()
    }

    /// Forgets the desktop hierarchy and the engine window when an engine window was
    /// configured; otherwise nothing changes.
    pub fn cleanup(&mut self)
        ensures
            old(self).engine_window_handle is Some ==> {
                &&& final(self).progman_window_handle is None
                &&& final(self).workerw_window_handle is None
                &&& final(self).shell_view_whidow_handle is None
                &&& final(self).engine_window_handle is None
                &&& same_except_handles(*final(self), *old(self))
            },
            old(self).engine_window_handle is None ==> *final(self) == *old(self),
    {
        if self.engine_window_handle.is_some() {
            self.progman_window_handle = None;
            self.workerw_window_handle = None;
            self.shell_view_whidow_handle = None;
            self.engine_window_handle = None;
        }
    }

    /// Starts a new input frame. The new sample holds, for each button, whether its
    /// virtual-key code is non-zero, so every button reads as held.
    pub fn update_mouse_state(&mut self)
        ensures
            final(self).previous_mouse_state@ == old(self).current_mouse_state@,
            final(self).current_mouse_state@ == seq![true, true, true, true, true],
            same_handles(*final(self), *old(self)),
            final(self).selected_monitor == old(self).selected_monitor,
            final(self).desktop_x == old(self).desktop_x,
            final(self).desktop_y == old(self).desktop_y,
            final(self).is_pre_24h2 == old(self).is_pre_24h2,
    {
        self.previous_mouse_state = self.current_mouse_state;
        let keys: [u16; 5] = [VK_LBUTTON, VK_RBUTTON, VK_MBUTTON, VK_XBUTTON1, VK_XBUTTON2];
        let mut i: usize = 0;
        while i < 5
            invariant
                0 <= i <= 5,
                keys@ == seq![VK_LBUTTON, VK_RBUTTON, VK_MBUTTON, VK_XBUTTON1, VK_XBUTTON2],
                self.previous_mouse_state@ == old(self).current_mouse_state@,
                forall|j: int| 0 <= j < i ==> #[trigger] self.current_mouse_state[j],
                same_handles(*self, *old(self)),
                self.selected_monitor == old(self).selected_monitor,
                self.desktop_x == old(self).desktop_x,
                self.desktop_y == old(self).desktop_y,
                self.is_pre_24h2 == old(self).is_pre_24h2,
            decreases 5 - i,
        {
            self.current_mouse_state[i] = keys[i] != 0;
            i += 1;
        }
        assert(self.current_mouse_state@ =~= seq![true, true, true, true, true]);
    }
}

} // verus!
