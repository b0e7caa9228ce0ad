//! Win32 values that the decision logic depends on.
use vstd::prelude::*;

verus! {

/// `VK_LBUTTON`: virtual-key code of the left mouse button.
pub const VK_LBUTTON: u16 = 0x01;
/// `VK_RBUTTON`: virtual-key code of the right mouse button.
pub const VK_RBUTTON: u16 = 0x02;
/// `VK_MBUTTON`: virtual-key code of the middle mouse button.
pub const VK_MBUTTON: u16 = 0x04;
/// `VK_XBUTTON1`: virtual-key code of the first extra mouse button.
pub const VK_XBUTTON1: u16 = 0x05;
/// `VK_XBUTTON2`: virtual-key code of the second extra mouse button.
pub const VK_XBUTTON2: u16 = 0x06;

/// `WS_OVERLAPPEDWINDOW`: caption, system menu, sizing frame and min/max boxes.
pub const WS_OVERLAPPEDWINDOW: u32 = 0x00CF_0000;
/// `WS_CHILD`: the window is a child window.
pub const WS_CHILD: u32 = 0x4000_0000;
/// `WS_EX_LAYERED`: the window is a layered window.
pub const WS_EX_LAYERED: u32 = 0x0008_0000;
/// `WS_EX_STATICEDGE`: three-dimensional border style.
pub const WS_EX_STATICEDGE: u32 = 0x0002_0000;

/// `ERROR_INSUFFICIENT_BUFFER`: the data area passed to a system call is too small.
pub const ERROR_INSUFFICIENT_BUFFER: u32 = 122;

/// `MK_LBUTTON`: left button flag of a mouse message's `WPARAM`.
pub const MK_LBUTTON: u32 = 0x0001;
/// `MK_RBUTTON`: right button flag of a mouse message's `WPARAM`.
pub const MK_RBUTTON: u32 = 0x0002;
/// `MK_MBUTTON`: middle button flag of a mouse message's `WPARAM`.
pub const MK_MBUTTON: u32 = 0x0010;

/// `WM_KEYDOWN`.
pub const WM_KEYDOWN: u32 = 0x0100;
/// `WM_KEYUP`.
pub const WM_KEYUP: u32 = 0x0101;
/// `WM_MOUSEMOVE`.
pub const WM_MOUSEMOVE: u32 = 0x0200;
/// `WM_LBUTTONDOWN`.
pub const WM_LBUTTONDOWN: u32 = 0x0201;
/// `WM_LBUTTONUP`.
pub const WM_LBUTTONUP: u32 = 0x0202;
/// `WM_RBUTTONDOWN`.
pub const WM_RBUTTONDOWN: u32 = 0x0204;
/// `WM_RBUTTONUP`.
pub const WM_RBUTTONUP: u32 = 0x0205;
/// `WM_MBUTTONDOWN`.
pub const WM_MBUTTONDOWN: u32 = 0x0207;
/// `WM_MBUTTONUP`.
pub const WM_MBUTTONUP: u32 = 0x0208;
/// `WM_MOUSEWHEEL`.
pub const WM_MOUSEWHEEL: u32 = 0x020A;

/// `HC_ACTION`: the hook procedure must process the message.
pub const HC_ACTION: i32 = 0;
/// `LLMHF_INJECTED`: the low-level mouse event was injected.
pub const LLMHF_INJECTED: u32 = 0x0000_0001;
/// `LLKHF_INJECTED`: the low-level keyboard event was injected.
pub const LLKHF_INJECTED: u32 = 0x0000_0010;

} // verus!
