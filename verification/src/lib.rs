//! Verified decision logic of a desktop wallpaper engine: attaching a window behind the
//! desktop icons, monitor coordinate normalisation, fullscreen occlusion sampling, mouse
//! button edge detection and input-event forwarding.
//!
//! Every Win32 call is made by the embedding application; this crate receives what those
//! calls returned as plain values and decides what happens next.
pub mod platform;

pub use crate::platform::windows::attach::AttachWindow;
pub use crate::platform::windows::functions::{
    has_workerw_between_step, is_desktop_locked, is_invisible_win10_background_app_window,
    occlusion_sample_counts,
};
pub use crate::platform::windows::models::{MonitorInfo, WindowsPlatform};
pub use crate::platform::windows::mouse::{EventForwarder, Events};
