use typd::keycodes::{injection_requests, is_modifier_key, is_repeatable_key, modifier_mask, VkbdRequest};
use typd::physical::PhysicalKeyboard;
use typd::window::{choose_shm_format, cursor_shape, edge_from_flags, CursorShape, ResizeEdge, ShmFormat};

#[test]
fn repeatable_and_modifier_keys() {
    for code in [2, 14, 28, 53, 57, 111, 103, 105, 106, 108, 104, 109] {
        assert!(is_repeatable_key(code), "{code}");
    }
    for code in [0, 1, 54, 58, 59, 100, 102, 107, 110, 125] {
        assert!(!is_repeatable_key(code), "{code}");
    }
    for code in [29, 42, 54, 56, 97, 100, 125] {
        assert!(is_modifier_key(code), "{code}");
    }
    for code in [0, 28, 30, 43, 55, 57, 58, 98, 126] {
        assert!(!is_modifier_key(code), "{code}");
    }
}

#[test]
fn modifier_mask_bits() {
    assert_eq!(modifier_mask(false, false, false), 0);
    assert_eq!(modifier_mask(true, false, false), 1);
    assert_eq!(modifier_mask(false, true, false), 4);
    assert_eq!(modifier_mask(false, false, true), 8);
    assert_eq!(modifier_mask(true, true, true), 13);
}

#[test]
fn injection_without_modifiers() {
    let reqs = injection_requests(30, false, false, false, 1000);
    assert_eq!(
        reqs,
        vec![
            VkbdRequest::Modifiers { depressed: 0 },
            VkbdRequest::Key { time: 1000, key: 30, state: 1 },
            VkbdRequest::Key { time: 1008, key: 30, state: 0 },
        ]
    );
}

#[test]
fn injection_with_modifiers_resets_them() {
    let reqs = injection_requests(46, true, true, false, 7);
    assert_eq!(
        reqs,
        vec![
            VkbdRequest::Modifiers { depressed: 5 },
            VkbdRequest::Key { time: 7, key: 46, state: 1 },
            VkbdRequest::Key { time: 15, key: 46, state: 0 },
            VkbdRequest::Modifiers { depressed: 0 },
        ]
    );
}

#[test]
fn physical_press_release_tracks_active_key() {
    let mut k = PhysicalKeyboard::new();
    k.mark_pressed(3);
    k.mark_pressed(7);
    k.mark_pressed(3);
    assert_eq!(k.pressed_key_ids(), &vec![3, 7]);
    assert_eq!(k.active_key_id(), Some(3));
    k.mark_released(3);
    assert_eq!(k.pressed_key_ids(), &vec![7]);
    assert_eq!(k.active_key_id(), Some(7));
    k.mark_pressed(9);
    k.mark_released(7);
    assert_eq!(k.pressed_key_ids(), &vec![9]);
    assert_eq!(k.active_key_id(), Some(9));
    k.mark_released(9);
    assert!(k.pressed_key_ids().is_empty());
    assert_eq!(k.active_key_id(), None);
    k.mark_released(42);
    assert_eq!(k.active_key_id(), None);
}

#[test]
fn physical_release_undoes_press() {
    let mut k = PhysicalKeyboard::new();
    k.mark_pressed(1);
    k.mark_pressed(2);
    let before = k.pressed_key_ids().clone();
    k.mark_pressed(5);
    k.mark_released(5);
    assert_eq!(k.pressed_key_ids(), &before);
}

#[test]
fn physical_key_events_follow_modifiers_and_locks() {
    let mut k = PhysicalKeyboard::new();
    k.key_event(Some(4), 42, true);
    assert!(k.shift());
    assert_eq!(k.active_key_id(), Some(4));
    k.key_event(Some(4), 42, false);
    assert!(!k.shift());
    k.key_event(None, 29, true);
    assert!(k.ctrl());
    k.key_event(None, 100, true);
    assert!(k.alt());
    k.key_event(None, 58, true);
    assert!(k.caps());
    k.key_event(None, 58, false);
    assert!(k.caps());
    k.key_event(None, 58, true);
    assert!(!k.caps());
    k.key_event(None, 69, true);
    assert!(k.num());
    k.clear();
    assert!(!k.shift() && !k.ctrl() && !k.alt() && !k.caps() && !k.num());
    assert!(k.pressed_key_ids().is_empty());
}

#[test]
fn physical_modifier_masks_decode() {
    let mut k = PhysicalKeyboard::new();
    k.modifiers_event(0x01, 0x08, 0x12);
    assert!(k.shift() && !k.ctrl() && k.alt() && k.caps() && k.num());
    k.modifiers_event(modifier_mask(false, true, false), 0, 0);
    assert!(!k.shift() && k.ctrl() && !k.alt() && !k.caps() && !k.num());
}

#[test]
fn edges_and_corners() {
    assert_eq!(edge_from_flags(true, false, true, false), ResizeEdge::TopLeft);
    assert_eq!(edge_from_flags(false, true, true, false), ResizeEdge::TopRight);
    assert_eq!(edge_from_flags(true, false, false, true), ResizeEdge::BottomLeft);
    assert_eq!(edge_from_flags(false, true, false, true), ResizeEdge::BottomRight);
    assert_eq!(edge_from_flags(true, false, false, false), ResizeEdge::Left);
    assert_eq!(edge_from_flags(false, true, false, false), ResizeEdge::Right);
    assert_eq!(edge_from_flags(false, false, true, false), ResizeEdge::Top);
    assert_eq!(edge_from_flags(false, false, false, true), ResizeEdge::Bottom);
    assert_eq!(edge_from_flags(false, false, false, false), ResizeEdge::NoEdge);
    assert_eq!(edge_from_flags(true, true, false, false), ResizeEdge::NoEdge);
    assert_eq!(edge_from_flags(false, false, true, true), ResizeEdge::NoEdge);
}

#[test]
fn cursor_shapes() {
    assert_eq!(cursor_shape(ResizeEdge::NoEdge, ResizeEdge::NoEdge, false, false), CursorShape::Default);
    assert_eq!(cursor_shape(ResizeEdge::NoEdge, ResizeEdge::NoEdge, true, false), CursorShape::Grab);
    assert_eq!(cursor_shape(ResizeEdge::NoEdge, ResizeEdge::NoEdge, true, true), CursorShape::Pointer);
    assert_eq!(cursor_shape(ResizeEdge::NoEdge, ResizeEdge::Left, true, true), CursorShape::WResize);
    assert_eq!(cursor_shape(ResizeEdge::BottomRight, ResizeEdge::Left, false, false), CursorShape::SeResize);
    assert_eq!(cursor_shape(ResizeEdge::TopLeft, ResizeEdge::NoEdge, false, false), CursorShape::NwResize);
    assert_eq!(cursor_shape(ResizeEdge::NoEdge, ResizeEdge::TopRight, false, false), CursorShape::NeResize);
    assert_eq!(cursor_shape(ResizeEdge::NoEdge, ResizeEdge::BottomLeft, false, false), CursorShape::SwResize);
    assert_eq!(cursor_shape(ResizeEdge::Top, ResizeEdge::NoEdge, false, false), CursorShape::NResize);
    assert_eq!(cursor_shape(ResizeEdge::Bottom, ResizeEdge::NoEdge, false, false), CursorShape::SResize);
    assert_eq!(cursor_shape(ResizeEdge::Right, ResizeEdge::NoEdge, false, false), CursorShape::EResize);
}

#[test]
fn shm_format_preference() {
    assert_eq!(choose_shm_format(true, true), Some(ShmFormat::Xrgb8888));
    assert_eq!(choose_shm_format(false, true), Some(ShmFormat::Argb8888));
    assert_eq!(choose_shm_format(false, false), None);
}
