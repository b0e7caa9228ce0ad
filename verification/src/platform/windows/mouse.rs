//! Input events captured by the low-level hooks, and how they are re-posted to the
//! wallpaper window: Windows message, `WPARAM` with the held buttons, and the
//! client-coordinate `LPARAM`.
use crate::platform::windows::attach::Point;
use crate::platform::windows::constants::{
    MK_LBUTTON, MK_MBUTTON, MK_RBUTTON, WM_KEYDOWN, WM_KEYUP, WM_LBUTTONDOWN, WM_LBUTTONUP,
    WM_MBUTTONDOWN, WM_MBUTTONUP, WM_MOUSEMOVE, WM_MOUSEWHEEL, WM_RBUTTONDOWN, WM_RBUTTONUP,
};
use crate::platform::windows::functions::str_equals;
use vstd::prelude::*;

verus! {

/// Input events that can be captured and forwarded to a target window. Mouse
/// coordinates are screen coordinates.
#[derive(Clone, Copy, Debug, PartialEq, Eq, Structural)]
pub enum Events {
    /// The cursor moved to the given screen position.
    Move { x: i32, y: i32 },
    /// The left button was pressed.
    LeftDown { x: i32, y: i32 },
    /// The left button was released.
    LeftUp { x: i32, y: i32 },
    /// The right button was pressed.
    RightDown { x: i32, y: i32 },
    /// The right button was released.
    RightUp { x: i32, y: i32 },
    /// The middle button was pressed.
    MiddleDown { x: i32, y: i32 },
    /// The middle button was released.
    MiddleUp { x: i32, y: i32 },
    /// The wheel turned by `delta` (positive away from the user).
    Scroll { x: i32, y: i32, delta: i16 },
    /// A key with the given virtual-key code was pressed.
    KeyDown { vk: u32 },
    /// A key with the given virtual-key code was released.
    KeyUp { vk: u32 },
}

/// All mouse-button flags that a forwarder tracks: `MK_LBUTTON | MK_RBUTTON | MK_MBUTTON`.
pub open spec fn tracked_button_flags() -> u32 {
    0x13
}

/// The tracked flags are exactly the left, right and middle button flags.
pub proof fn lemma_tracked_button_flags()
    ensures
        tracked_button_flags() == MK_LBUTTON | MK_RBUTTON | MK_MBUTTON,
{
    assert(0x1u32 | 0x2u32 | 0x10u32 == 0x13u32) by (bit_vector);
}

/// A window in a window hierarchy, with its class name and its children in z-order.
#[derive(Debug)]
pub struct WindowNode {
    pub hwnd: isize,
    pub class_name: String,
    pub children: Vec<WindowNode>,
}

/// The first window, in depth-first pre-order (a window before its children, children in
/// z-order), whose class name is `target`.
pub open spec fn spec_find_descendant(node: WindowNode, target: Seq<char>) -> Option<isize>
    decreases node, 1int,
{
    if node.class_name@ == target {
        Some(node.hwnd)
    } else {
        spec_find_in_children(node.children@, target)
    }
}

/// The first match of [`spec_find_descendant`] among sibling subtrees, in order.
pub open spec fn spec_find_in_children(children: Seq<WindowNode>, target: Seq<char>) -> Option<isize>
    decreases children, 0int,
{
    if children.len() == 0 {
        None
    } else {
        match spec_find_descendant(children[0], target) {
            Some(h) => Some(h),
            None => spec_find_in_children(children.drop_first(), target),
        }
    }
}

/// Searches `node` and its descendants, depth first, for a window whose class name is
/// `target_name`.
pub fn find_descendant_target(node: &WindowNode, target_name: &str) -> (r: Option<isize>)
    ensures
        r == spec_find_descendant(*node, target_name@),
    decreases node,
{
    if str_equals(node.class_name.as_str(), target_name) {
        return Some(node.hwnd);
    }
    let n = node.children.len();
    let mut i: usize = 0;
    assert(node.children@.subrange(0, n as int) =~= node.children@);
    while i < n
        invariant
            n == node.children@.len(),
            0 <= i <= n,
            node.class_name@ != target_name@,
            spec_find_in_children(node.children@, target_name@) == spec_find_in_children(
                node.children@.subrange(i as int, n as int),
                target_name@,
            ),
        decreases n - i,
    {
        let ghost rest = node.children@.subrange(i as int, n as int);
        assert(rest[0] == node.children@[i as int]);
        assert(rest.drop_first() =~= node.children@.subrange(i + 1, n as int));
        let found = find_descendant_target(&node.children[i], target_name);
        if found.is_some() {
            assert(spec_find_in_children(rest, target_name@) == found);
            return found;
        }
        assert(spec_find_in_children(rest, target_name@) == spec_find_in_children(
            rest.drop_first(),
            target_name@,
        ));
        i += 1;
    }
    assert(node.children@.subrange(n as int, n as int) =~= Seq::<WindowNode>::empty());
    None
}

/// A message to post to the target window for one event. Mouse messages carry the
/// event's screen point, which the poster converts to client coordinates and packs with
/// [`pack_lparam`]; keyboard messages have an `LPARAM` of 0.
#[derive(Clone, Copy, Debug, PartialEq, Eq, Structural)]
pub struct PostedMessage {
    pub message: u32,
    pub wparam: usize,
    pub screen_point: Option<Point>,
}

/// The held buttons after the "down" part of an event: a button press sets its flag
/// before the message is built.
pub open spec fn state_after_press(state: u32, event: Events) -> u32 {
    match event {
        Events::LeftDown { .. } => state | MK_LBUTTON,
        Events::RightDown { .. } => state | MK_RBUTTON,
        Events::MiddleDown { .. } => state | MK_MBUTTON,
        _ => state,
    }
}

/// The held buttons after the "up" part of an event: a button release clears its flag
/// once the message was posted.
pub open spec fn state_after_release(state: u32, event: Events) -> u32 {
    match event {
        Events::LeftUp { .. } => state & !MK_LBUTTON,
        Events::RightUp { .. } => state & !MK_RBUTTON,
        Events::MiddleUp { .. } => state & !MK_MBUTTON,
        _ => state,
    }
}

/// `WPARAM` of a wheel message: the wheel delta in the high word, the held buttons in
/// the low word.
pub open spec fn wheel_wparam(delta: i16, state: u32) -> usize {
    (((delta as u16) as usize) << 16usize) | (state as usize)
}

/// The message that forwards `event`, with `state` the held buttons after
/// [`state_after_press`].
pub open spec fn spec_posted_message(state: u32, event: Events) -> PostedMessage {
    match event {
        Events::Move { x, y } => PostedMessage { message: WM_MOUSEMOVE, wparam: state as usize, screen_point: Some(Point { x, y }) },
        Events::LeftDown { x, y } => PostedMessage { message: WM_LBUTTONDOWN, wparam: state as usize, screen_point: Some(Point { x, y }) },
        Events::LeftUp { x, y } => PostedMessage { message: WM_LBUTTONUP, wparam: state as usize, screen_point: Some(Point { x, y }) },
        Events::RightDown { x, y } => PostedMessage { message: WM_RBUTTONDOWN, wparam: state as usize, screen_point: Some(Point { x, y }) },
        Events::RightUp { x, y } => PostedMessage { message: WM_RBUTTONUP, wparam: state as usize, screen_point: Some(Point { x, y }) },
        Events::MiddleDown { x, y } => PostedMessage { message: WM_MBUTTONDOWN, wparam: state as usize, screen_point: Some(Point { x, y }) },
        Events::MiddleUp { x, y } => PostedMessage { message: WM_MBUTTONUP, wparam: state as usize, screen_point: Some(Point { x, y }) },
        Events::Scroll { x, y, delta } => PostedMessage { message: WM_MOUSEWHEEL, wparam: wheel_wparam(delta, state), screen_point: Some(Point { x, y }) },
        Events::KeyDown { vk } => PostedMessage { message: WM_KEYDOWN, wparam: vk as usize, screen_point: None },
        Events::KeyUp { vk } => PostedMessage { message: WM_KEYUP, wparam: vk as usize, screen_point: None },
    }
}

/// Each event is forwarded with its own Windows message: a move as `WM_MOUSEMOVE`
/// (0x0200), a press and a release of the left, right and middle button as
/// `WM_LBUTTONDOWN`/`WM_LBUTTONUP` (0x0201/0x0202), `WM_RBUTTONDOWN`/`WM_RBUTTONUP`
/// (0x0204/0x0205) and `WM_MBUTTONDOWN`/`WM_MBUTTONUP` (0x0207/0x0208), the wheel as
/// `WM_MOUSEWHEEL` (0x020A), and keys as `WM_KEYDOWN`/`WM_KEYUP` (0x0100/0x0101). Mouse
/// messages carry the event's screen point and, but for the wheel, the held buttons as
/// `WPARAM`; key messages carry the virtual-key code and no point.
pub proof fn lemma_forwarded_messages(state: u32, x: i32, y: i32, delta: i16, vk: u32)
    ensures
        spec_posted_message(state, Events::Move { x, y }).message == 0x0200,
        spec_posted_message(state, Events::LeftDown { x, y }).message == 0x0201,
        spec_posted_message(state, Events::LeftUp { x, y }).message == 0x0202,
        spec_posted_message(state, Events::RightDown { x, y }).message == 0x0204,
        spec_posted_message(state, Events::RightUp { x, y }).message == 0x0205,
        spec_posted_message(state, Events::MiddleDown { x, y }).message == 0x0207,
        spec_posted_message(state, Events::MiddleUp { x, y }).message == 0x0208,
        spec_posted_message(state, Events::Scroll { x, y, delta }).message == 0x020A,
        spec_posted_message(state, Events::KeyDown { vk }).message == 0x0100,
        spec_posted_message(state, Events::KeyUp { vk }).message == 0x0101,
        forall|e: Events|
            #![trigger spec_posted_message(state, e)]
            (e == Events::Move { x, y } || e == Events::LeftDown { x, y } || e == Events::LeftUp { x, y }
                || e == Events::RightDown { x, y } || e == Events::RightUp { x, y } || e
                == Events::MiddleDown { x, y } || e == Events::MiddleUp { x, y }) ==> {
                &&& spec_posted_message(state, e).screen_point == Some(Point { x, y })
                &&& spec_posted_message(state, e).wparam == state as usize
            },
        spec_posted_message(state, Events::Scroll { x, y, delta }).screen_point == Some(Point { x, y }),
        spec_posted_message(state, Events::KeyDown { vk }).wparam == vk as usize,
        spec_posted_message(state, Events::KeyDown { vk }).screen_point is None,
        spec_posted_message(state, Events::KeyUp { vk }).wparam == vk as usize,
        spec_posted_message(state, Events::KeyUp { vk }).screen_point is None,
{
}

/// Only a button's own events touch its flag among the held buttons: a press sets its
/// flag and leaves the others, a release clears its flag once posted and leaves the
/// others, and every other event changes nothing at either step.
pub proof fn lemma_held_buttons_per_event(state: u32, e: Events)
    ensures
        state_after_press(state, e) == (match e {
            Events::LeftDown { .. } => state | 0x1,
            Events::RightDown { .. } => state | 0x2,
            Events::MiddleDown { .. } => state | 0x10,
            _ => state,
        }),
        state_after_release(state, e) == (match e {
            Events::LeftUp { .. } => state & !0x1u32,
            Events::RightUp { .. } => state & !0x2u32,
            Events::MiddleUp { .. } => state & !0x10u32,
            _ => state,
        }),
{
}

/// A button press forwards a message whose `WPARAM` holds the button; its release
/// forwards a message that still holds it, and once posted the button is no longer held:
/// pressing and releasing a button that was not held restores the held buttons.
pub proof fn lemma_press_release_round_trip(state: u32, x: i32, y: i32)
    requires
        state & !tracked_button_flags() == 0,
    ensures
        ({
            let down = state_after_press(state, Events::LeftDown { x, y });
            &&& down & MK_LBUTTON == MK_LBUTTON
            &&& spec_posted_message(down, Events::LeftDown { x, y }).wparam == down as usize
            &&& state_after_press(down, Events::LeftUp { x, y }) == down
            &&& (state & MK_LBUTTON == 0 ==> state_after_release(down, Events::LeftUp { x, y }) == state)
        }),
        ({
            let down = state_after_press(state, Events::RightDown { x, y });
            &&& down & MK_RBUTTON == MK_RBUTTON
            &&& state_after_press(down, Events::RightUp { x, y }) == down
            &&& (state & MK_RBUTTON == 0 ==> state_after_release(down, Events::RightUp { x, y }) == state)
        }),
        ({
            let down = state_after_press(state, Events::MiddleDown { x, y });
            &&& down & MK_MBUTTON == MK_MBUTTON
            &&& state_after_press(down, Events::MiddleUp { x, y }) == down
            &&& (state & MK_MBUTTON == 0 ==> state_after_release(down, Events::MiddleUp { x, y }) == state)
        }),
{
    assert((state | 1u32) & 1u32 == 1u32 && (state & 1u32 == 0 ==> (state | 1u32) & !1u32 == state))
        by (bit_vector);
    assert((state | 2u32) & 2u32 == 2u32 && (state & 2u32 == 0 ==> (state | 2u32) & !2u32 == state))
        by (bit_vector);
    assert((state | 16u32) & 16u32 == 16u32 && (state & 16u32 == 0 ==> (state | 16u32) & !16u32
        == state)) by (bit_vector);
}

/// The `WPARAM` of a wheel message carries the wheel delta in its high word and the held
/// buttons in its low word.
pub proof fn lemma_wheel_wparam_words(delta: i16, state: u32)
    requires
        state & !tracked_button_flags() == 0,
    ensures
        (wheel_wparam(delta, state) >> 16usize) & 0xFFFF == (delta as u16) as usize,
        wheel_wparam(delta, state) & 0xFFFF == state as usize,
{
    let d = delta as u16;
    assert(state <= 0x13) by (bit_vector)
        requires
            state & !0x13u32 == 0,
    ;
    let w = wheel_wparam(delta, state);
    assert(((((d as usize) << 16usize) | (state as usize)) >> 16usize) & 0xFFFF == d as usize
        && (((d as usize) << 16usize) | (state as usize)) & 0xFFFF == state as usize) by (bit_vector)
        requires
            state <= 0x13,
    ;
}

/// Packs client coordinates into a mouse message's `LPARAM`: `x` in the low word and `y`
/// in the high word, each truncated to 16 bits.
pub open spec fn spec_pack_lparam(x: i32, y: i32) -> u32 {
    ((x as u16) as u32) | (((y as u16) as u32) << 16u32)
}

/// Packs client coordinates into a mouse message's `LPARAM` (as its 32 low bits).
pub fn pack_lparam(x: i32, y: i32) -> (r: u32)
    ensures
        r == spec_pack_lparam(x, y),
        r & 0xFFFF == (x as u16) as u32,
        r >> 16u32 == (y as u16) as u32,
{
    let xl = #[verifier::truncate] (x as u16);
    let yl = #[verifier::truncate] (y as u16);
    let r = (xl as u32) | ((yl as u32) << 16u32);
    assert(r & 0xFFFF == xl as u32 && r >> 16u32 == yl as u32) by (bit_vector)
        requires
            r == (xl as u32) | ((yl as u32) << 16u32),
    ;
    r
}

/// Converts captured input into messages for one target window, tracking which mouse
/// buttons are held.
#[derive(Debug)]
pub struct EventForwarder {
    hwnd: isize,
    button_state: u32,
    includes_mouse: bool,
    includes_keyboard: bool,
}

impl EventForwarder {
    /// Only the tracked button flags can be held.
    #[verifier::type_invariant]
    spec fn flags_tracked(self) -> bool {
        self.button_state & !tracked_button_flags() == 0
    }

    /// The window that receives the forwarded messages.
    pub closed spec fn target(&self) -> isize {
        self.hwnd
    }

    /// The mouse-button flags currently held (`MK_*`).
    pub closed spec fn held_buttons(&self) -> u32 {
        self.button_state
    }

    /// Whether mouse events are captured.
    pub closed spec fn captures_mouse(&self) -> bool {
        self.includes_mouse
    }

    /// Whether keyboard events are captured.
    pub closed spec fn captures_keyboard(&self) -> bool {
        self.includes_keyboard
    }

    /// Creates a forwarder for `hwnd`. With `descendants_target`, the hierarchy under
    /// `hwnd` and a class name, the target is the first window of that class found depth
    /// first (`hwnd` itself included), and `None` is returned when there is none.
    pub fn new(
        hwnd: isize,
        descendants_target: Option<(&WindowNode, &str)>,
        includes_mouse: bool,
        includes_keyboard: bool,
    ) -> (r: Option<Self>)
        requires
            descendants_target matches Some(d) ==> d.0.hwnd == hwnd,
        ensures
            match descendants_target {
                None => r matches Some(f) && f.target() == hwnd,
                Some(d) => match spec_find_descendant(*d.0, d.1@) {
                    None => r is None,
                    Some(found) => r matches Some(f) && f.target() == found,
                },
            },
            r matches Some(f) ==> f.held_buttons() == 0 && f.captures_mouse() == includes_mouse
                && f.captures_keyboard() == includes_keyboard,
    {
        let mut target = hwnd;
        if let Some((tree, name)) = descendants_target {
            match find_descendant_target(tree, name) {
                Some(found) => {
                    target = found;
                },
                None => {
                    return None;
                },
            }
        }
        assert(0u32 & !0x13u32 == 0) by (bit_vector);
        Some(EventForwarder { hwnd: target, button_state: 0, includes_mouse, includes_keyboard })
    }

    /// The window that receives the forwarded messages.
    pub fn hwnd(&self) -> (r: isize)
        ensures
            r == self.target(),
    {
        self.hwnd
    }

    /// The mouse-button flags currently held.
    pub fn button_state(&self) -> (r: u32)
        ensures
            r == self.held_buttons(),
            r & !tracked_button_flags() == 0,
    {
        proof {
            use_type_invariant(self);
        }
        self.button_state
    }

    /// Whether mouse events are captured.
    pub fn includes_mouse(&self) -> (r: bool)
        ensures
            r == self.captures_mouse(),
    {
        self.includes_mouse
    }

    /// Whether keyboard events are captured.
    pub fn includes_keyboard(&self) -> (r: bool)
        ensures
            r == self.captures_keyboard(),
    {
        self.includes_keyboard
    }

    /// First half of forwarding `event`: records a button press, then returns the message
    /// to post (its `WPARAM` carries the held buttons including that press).
    pub fn prepare_event(&mut self, event: &Events) -> (r: PostedMessage)
        ensures
            final(self).held_buttons() == state_after_press(old(self).held_buttons(), *event),
            r == spec_posted_message(final(self).held_buttons(), *event),
            final(self).target() == old(self).target(),
            final(self).captures_mouse() == old(self).captures_mouse(),
            final(self).captures_keyboard() == old(self).captures_keyboard(),
    {
        proof {
            use_type_invariant(&*self);
        }
        let s = self.button_state;
        let new_state = match event {
            Events::LeftDown { .. } => s | MK_LBUTTON,
            Events::RightDown { .. } => s | MK_RBUTTON,
            Events::MiddleDown { .. } => s | MK_MBUTTON,
            _ => s,
        };
        assert((s | 0x1u32) & !0x13u32 == 0 && (s | 0x2u32) & !0x13u32 == 0 && (s | 0x10u32)
            & !0x13u32 == 0) by (bit_vector)
            requires
                s & !0x13u32 == 0,
        ;
        self.button_state = new_state;
        let state = new_state;
        match *event {
            Events::Move { x, y } => PostedMessage { message: WM_MOUSEMOVE, wparam: state as usize, screen_point: Some(Point { x, y }) },
            Events::LeftDown { x, y } => PostedMessage { message: WM_LBUTTONDOWN, wparam: state as usize, screen_point: Some(Point { x, y }) },
            Events::LeftUp { x, y } => PostedMessage { message: WM_LBUTTONUP, wparam: state as usize, screen_point: Some(Point { x, y }) },
            Events::RightDown { x, y } => PostedMessage { message: WM_RBUTTONDOWN, wparam: state as usize, screen_point: Some(Point { x, y }) },
            Events::RightUp { x, y } => PostedMessage { message: WM_RBUTTONUP, wparam: state as usize, screen_point: Some(Point { x, y }) },
            Events::MiddleDown { x, y } => PostedMessage { message: WM_MBUTTONDOWN, wparam: state as usize, screen_point: Some(Point { x, y }) },
            Events::MiddleUp { x, y } => PostedMessage { message: WM_MBUTTONUP, wparam: state as usize, screen_point: Some(Point { x, y }) },
            Events::Scroll { x, y, delta } => PostedMessage {
                message: WM_MOUSEWHEEL,
                wparam: (((#[verifier::truncate] (delta as u16)) as usize) << 16usize) | (
                state as usize),
                screen_point: Some(Point { x, y }),
            },
            Events::KeyDown { vk } => PostedMessage { message: WM_KEYDOWN, wparam: vk as usize, screen_point: None },
            Events::KeyUp { vk } => PostedMessage { message: WM_KEYUP, wparam: vk as usize, screen_point: None },
        }
    }

    /// Second half of forwarding `event`, once its message was posted: records a button
    /// release.
    pub fn complete_event(&mut self, event: &Events)
        ensures
            final(self).held_buttons() == state_after_release(old(self).held_buttons(), *event),
            final(self).target() == old(self).target(),
            final(self).captures_mouse() == old(self).captures_mouse(),
            final(self).captures_keyboard() == old(self).captures_keyboard(),
    {
        proof {
            use_type_invariant(&*self);
        }
        let s = self.button_state;
        let new_state = match event {
            Events::LeftUp { .. } => s & !MK_LBUTTON,
            Events::RightUp { .. } => s & !MK_RBUTTON,
            Events::MiddleUp { .. } => s & !MK_MBUTTON,
            _ => s,
        };
        assert((s & !0x1u32) & !0x13u32 == 0 && (s & !0x2u32) & !0x13u32 == 0 && (s & !0x10u32)
            & !0x13u32 == 0) by (bit_vector)
            requires
                s & !0x13u32 == 0,
        ;
        self.button_state = new_state;
    }
}

} // verus!
