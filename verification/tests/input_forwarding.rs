use lumin_wallpaper_rs::platform::windows::attach::Point;
use lumin_wallpaper_rs::platform::windows::mouse::{
    find_descendant_target, pack_lparam, EventForwarder, Events, PostedMessage, WindowNode,
};
use lumin_wallpaper_rs::platform::windows::procs::{keyboard_hook_event, mouse_hook_event};

fn node(hwnd: isize, class_name: &str, children: Vec<WindowNode>) -> WindowNode {
    WindowNode { hwnd, class_name: class_name.to_string(), children }
}

fn tree() -> WindowNode {
    node(
        1,
        "Root",
        vec![
            node(2, "Frame", vec![node(3, "Chrome_RenderWidgetHostHWND", vec![])]),
            node(4, "Chrome_RenderWidgetHostHWND", vec![]),
        ],
    )
}

#[test]
fn lparam_packs_low_and_high_words() {
    assert_eq!(pack_lparam(100, 200), 100 | (200 << 16));
    assert_eq!(pack_lparam(-1, -2), 0xFFFE_FFFF);
    assert_eq!(pack_lparam(0x1_0005, 0), 5);
}

#[test]
fn descendant_search_is_depth_first() {
    let t = tree();
    assert_eq!(find_descendant_target(&t, "Chrome_RenderWidgetHostHWND"), Some(3));
    assert_eq!(find_descendant_target(&t, "Root"), Some(1));
    assert_eq!(find_descendant_target(&t, "Frame"), Some(2));
    assert_eq!(find_descendant_target(&t, "Missing"), None);
}

#[test]
fn forwarder_targets_the_descendant() {
    let t = tree();
    let f = EventForwarder::new(1, Some((&t, "Chrome_RenderWidgetHostHWND")), true, false).unwrap();
    assert_eq!(f.hwnd(), 3);
    assert_eq!(f.button_state(), 0);
    assert!(f.includes_mouse());
    assert!(!f.includes_keyboard());
    assert!(EventForwarder::new(1, Some((&t, "Missing")), true, true).is_none());
    assert_eq!(EventForwarder::new(9, None, false, true).unwrap().hwnd(), 9);
}

#[test]
fn button_state_follows_presses_and_releases() {
    let mut f = EventForwarder::new(5, None, true, true).unwrap();
    let down = Events::LeftDown { x: 10, y: 20 };
    let m = f.prepare_event(&down);
    assert_eq!(m, PostedMessage { message: 0x0201, wparam: 1, screen_point: Some(Point { x: 10, y: 20 }) });
    f.complete_event(&down);
    assert_eq!(f.button_state(), 1);
    let right = Events::RightDown { x: 0, y: 0 };
    assert_eq!(f.prepare_event(&right).wparam, 3);
    f.complete_event(&right);
    let up = Events::LeftUp { x: 11, y: 21 };
    let m = f.prepare_event(&up);
    assert_eq!(m.message, 0x0202);
    assert_eq!(m.wparam, 3);
    f.complete_event(&up);
    assert_eq!(f.button_state(), 2);
    let moved = f.prepare_event(&Events::Move { x: 1, y: 2 });
    assert_eq!(moved.message, 0x0200);
    assert_eq!(moved.wparam, 2);
}

#[test]
fn middle_button_uses_its_flag() {
    let mut f = EventForwarder::new(5, None, true, true).unwrap();
    let m = f.prepare_event(&Events::MiddleDown { x: 0, y: 0 });
    assert_eq!((m.message, m.wparam), (0x0207, 0x10));
    f.complete_event(&Events::MiddleDown { x: 0, y: 0 });
    let m = f.prepare_event(&Events::MiddleUp { x: 0, y: 0 });
    assert_eq!((m.message, m.wparam), (0x0208, 0x10));
    f.complete_event(&Events::MiddleUp { x: 0, y: 0 });
    assert_eq!(f.button_state(), 0);
}

#[test]
fn wheel_wparam_carries_delta_and_buttons() {
    let mut f = EventForwarder::new(5, None, true, true).unwrap();
    f.prepare_event(&Events::RightDown { x: 0, y: 0 });
    let m = f.prepare_event(&Events::Scroll { x: 3, y: 4, delta: -120 });
    assert_eq!(m.message, 0x020A);
    assert_eq!(m.wparam, (0xFF88usize << 16) | 2);
    assert_eq!(m.screen_point, Some(Point { x: 3, y: 4 }));
}

#[test]
fn keys_are_forwarded_without_coordinates() {
    let mut f = EventForwarder::new(5, None, false, true).unwrap();
    let m = f.prepare_event(&Events::KeyDown { vk: 65 });
    assert_eq!(m, PostedMessage { message: 0x0100, wparam: 65, screen_point: None });
    let m = f.prepare_event(&Events::KeyUp { vk: 65 });
    assert_eq!(m, PostedMessage { message: 0x0101, wparam: 65, screen_point: None });
    assert_eq!(f.button_state(), 0);
}

#[test]
fn mouse_hook_decoding() {
    assert_eq!(mouse_hook_event(0, 0x0201, 0, 5, 6, 0), Some(Events::LeftDown { x: 5, y: 6 }));
    assert_eq!(mouse_hook_event(0, 0x0200, 0, 5, 6, 0), Some(Events::Move { x: 5, y: 6 }));
    assert_eq!(mouse_hook_event(0, 0x0205, 0, 5, 6, 0), Some(Events::RightUp { x: 5, y: 6 }));
    assert_eq!(mouse_hook_event(0, 0x0208, 0, 5, 6, 0), Some(Events::MiddleUp { x: 5, y: 6 }));
    assert_eq!(mouse_hook_event(0, 0x020A, 0, 5, 6, 0x0078_0000), Some(Events::Scroll { x: 5, y: 6, delta: 120 }));
    assert_eq!(mouse_hook_event(0, 0x020A, 0, 5, 6, 0xFF88_0000), Some(Events::Scroll { x: 5, y: 6, delta: -120 }));
    assert_eq!(mouse_hook_event(0, 0x020A, 0, 5, 6, 0x0000_FFFF), None);
    assert_eq!(mouse_hook_event(0, 0x0201, 1, 5, 6, 0), None);
    assert_eq!(mouse_hook_event(-1, 0x0201, 0, 5, 6, 0), None);
    assert_eq!(mouse_hook_event(0, 0x020E, 0, 5, 6, 0), None);
}

#[test]
fn keyboard_hook_decoding() {
    assert_eq!(keyboard_hook_event(0, 0x0100, 0, 65), Some(Events::KeyDown { vk: 65 }));
    assert_eq!(keyboard_hook_event(0, 0x0101, 0, 65), Some(Events::KeyUp { vk: 65 }));
    assert_eq!(keyboard_hook_event(0, 0x0104, 0, 65), None);
    assert_eq!(keyboard_hook_event(0, 0x0100, 0x10, 65), None);
    assert_eq!(keyboard_hook_event(0, 0x0100, 0x01, 65), Some(Events::KeyDown { vk: 65 }));
    assert_eq!(keyboard_hook_event(-1, 0x0100, 0, 65), None);
}
