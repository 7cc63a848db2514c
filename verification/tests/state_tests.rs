use typd::layout::{KeyAction, KeySlot};
use typd::state::{
    DrawPlan, GeometryUpdate, HeldKey, Injection, KeyInjection, PointerAction, PressOutcome,
    TickOutcome, TypdState, VkbdUnavailable,
};
use typd::keycodes::VkbdRequest;
use typd::window::ResizeEdge;

fn configured() -> TypdState {
    let mut s = TypdState::new();
    s.configure_main(0, 0);
    s.configure_sidebar();
    s
}

fn slot_with_code(s: &TypdState, code: u32) -> KeySlot {
    *s.keys.iter().chain(s.sidebar_keys.iter()).find(|k| k.def.linux_keycode == Some(code)).unwrap()
}

fn slot_with_action(s: &TypdState, action: KeyAction) -> KeySlot {
    *s.keys.iter().chain(s.sidebar_keys.iter()).find(|k| k.def.action == action).unwrap()
}

#[test]
fn initial_state() {
    let s = TypdState::new();
    assert_eq!((s.width, s.height), (1280, 480));
    assert_eq!((s.margin_x, s.margin_y), (320, 60));
    assert!(s.running && !s.configured && !s.dragging);
    assert_eq!(s.resize_edge, ResizeEdge::NoEdge);
    assert!(s.keys.is_empty() && s.sidebar_keys.is_empty());
    assert!(s.sidebar_needs_configure && !s.sidebar_configured);
    assert!(!s.input.sidebar_expanded && s.input.held_key.is_none());
}

#[test]
fn sidebar_sits_right_of_the_keyboard() {
    let mut s = TypdState::new();
    assert_eq!(s.sidebar_margin_x(), 320 + 1280 + 8);
    s.margin_x = i32::MAX - 100;
    assert_eq!(s.sidebar_margin_x(), i32::MAX);
    s.margin_x = -5000;
    s.width = 900;
    assert_eq!(s.sidebar_margin_x(), -5000 + 900 + 8);
}

#[test]
fn configure_keeps_size_on_zero() {
    let mut s = TypdState::new();
    s.configure_main(0, 0);
    assert_eq!((s.width, s.height), (1280, 480));
    assert!(s.configured);
    assert_eq!(s.keys.len(), 78);
    s.configure_main(1000, 0);
    assert_eq!((s.width, s.height), (1000, 480));
    s.configure_main(0, 350);
    assert_eq!((s.width, s.height), (1000, 350));
    s.configure_sidebar();
    assert!(s.sidebar_configured && !s.sidebar_needs_configure);
    assert_eq!(s.sidebar_keys.len(), 12);
    assert_eq!(s.sidebar_keys[0].id, 78);
}

#[test]
fn keycode_lookup_prefers_main_keyboard() {
    let s = configured();
    let del = s.key_id_for_keycode(111).unwrap();
    assert!(del < 78);
    assert_eq!(s.keys[del].def.label_lower, "Del");
    let help = s.key_id_for_keycode(138).unwrap();
    assert_eq!(help, 89);
    assert_eq!(s.key_id_for_keycode(999), None);
    assert_eq!(s.key_id_for_keycode(1), Some(0));
}

#[test]
fn physical_key_event_marks_the_key() {
    let mut s = configured();
    let code = s.physical_key(22, true);
    assert_eq!(code, 30);
    let a = s.key_id_for_keycode(30).unwrap();
    assert_eq!(s.physical.active_key_id(), Some(a));
    s.physical_key(34, true);
    assert!(s.physical.shift());
    s.physical_key(22, false);
    assert!(!s.physical.pressed_key_ids().contains(&a));
    s.physical_modifiers(0, 0, 0x02);
    assert!(s.physical.caps() && !s.physical.shift());
    s.clear_physical_keyboard_state();
    assert!(s.physical.pressed_key_ids().is_empty() && !s.physical.caps());
}

#[test]
fn toggle_sidebar_twice_and_debounce() {
    let mut s = configured();
    let toggle = slot_with_action(&s, KeyAction::ToggleSidebar);
    let out = s.input.press_key(toggle, s.keys.len(), 1000);
    assert_eq!(out, PressOutcome { inject: None, redraw: false });
    assert!(s.input.sidebar_expanded && s.input.sidebar_animating);
    assert_eq!(s.input.sidebar_toggle_cooldown, Some(1200));
    s.input.press_key(toggle, s.keys.len(), 1100);
    assert!(s.input.sidebar_expanded);
    s.input.press_key(toggle, s.keys.len(), 1200);
    assert!(!s.input.sidebar_expanded);
}

#[test]
fn modifier_keys_toggle() {
    let mut s = configured();
    let n = s.keys.len();
    for action in [KeyAction::Shift, KeyAction::Caps, KeyAction::Ctrl, KeyAction::Alt] {
        let k = slot_with_action(&s, action);
        let out = s.input.press_key(k, n, 10);
        assert_eq!(out, PressOutcome { inject: None, redraw: true });
        assert_eq!(s.input.active_key_id, Some(k.id));
        assert_eq!(s.input.active_key_until, Some(110));
    }
    assert!(s.input.shift_active && s.input.caps_active && s.input.ctrl_active && s.input.alt_active);
    let num = slot_with_action(&s, KeyAction::NumLock);
    let out = s.input.press_key(num, n, 10);
    assert_eq!(out, PressOutcome { inject: None, redraw: true });
    assert!(s.input.num_active);
    assert_eq!(s.input.sidebar_active_key_id, Some(num.id));
    s.input.press_key(num, n, 20);
    assert!(!s.input.num_active);
    let m = s.display_modifiers();
    assert!(m.shift && m.caps && m.ctrl && m.alt && !m.num);
}

#[test]
fn shift_applies_to_one_key() {
    let mut s = configured();
    let n = s.keys.len();
    let shift = slot_with_code(&s, 42);
    s.input.press_key(shift, n, 0);
    let q = slot_with_code(&s, 16);
    let out = s.input.press_key(q, n, 5);
    assert_eq!(out.inject, Some(KeyInjection { keycode: 16, shift: true, ctrl: false, alt: false }));
    assert!(!s.input.shift_active);
    let out = s.input.press_key(q, n, 6);
    assert_eq!(out.inject, Some(KeyInjection { keycode: 16, shift: false, ctrl: false, alt: false }));
}

#[test]
fn caps_flips_shift_for_letters_only() {
    let mut s = configured();
    let n = s.keys.len();
    let caps = slot_with_action(&s, KeyAction::Caps);
    s.input.press_key(caps, n, 0);
    let a = slot_with_code(&s, 30);
    assert_eq!(s.input.press_key(a, n, 1).inject.unwrap().shift, true);
    let one = slot_with_code(&s, 2);
    assert_eq!(s.input.press_key(one, n, 2).inject.unwrap().shift, false);
    let shift = slot_with_code(&s, 54);
    s.input.press_key(shift, n, 3);
    assert_eq!(s.input.press_key(a, n, 4).inject.unwrap().shift, false);
}

#[test]
fn held_key_repeats_after_delay() {
    let mut s = configured();
    let n = s.keys.len();
    let bksp = slot_with_code(&s, 14);
    let out = s.input.press_key(bksp, n, 1000);
    let typed = out.inject.unwrap();
    assert_eq!(
        s.input.held_key,
        Some(HeldKey { key_id: bksp.id, keycode: 14, shift: false, ctrl: false, alt: false, next_repeat: 1430 })
    );
    assert_eq!(s.input.tick_keys(1050), TickOutcome { repeat: None, redraw: false });
    let t = s.input.tick_keys(1100);
    assert_eq!(t, TickOutcome { repeat: None, redraw: true });
    assert_eq!(s.input.active_key_id, None);
    let t = s.input.tick_keys(1430);
    assert_eq!(t, TickOutcome { repeat: Some(typed), redraw: true });
    assert_eq!(s.input.active_key_id, Some(bksp.id));
    assert_eq!(s.input.active_key_until, Some(1510));
    assert_eq!(s.input.held_key.unwrap().next_repeat, 1485);
    s.pointer_release();
    assert_eq!(s.input.held_key, None);
    assert_eq!(s.input.tick_keys(5000).repeat, None);
}

#[test]
fn non_repeating_key_is_not_held() {
    let mut s = configured();
    let n = s.keys.len();
    let esc = slot_with_code(&s, 1);
    let out = s.input.press_key(esc, n, 0);
    assert_eq!(out.inject, Some(KeyInjection { keycode: 1, shift: false, ctrl: false, alt: false }));
    assert_eq!(s.input.held_key, None);
}

#[test]
fn pointer_press_priorities() {
    let mut s = configured();
    let key = s.keys[20];
    assert_eq!(s.pointer_press(273, true, ResizeEdge::Left, true, Some(key)), PointerAction::Nothing);
    assert!(s.running);
    let mut c = configured();
    assert_eq!(c.pointer_press(272, true, ResizeEdge::Left, true, Some(key)), PointerAction::Close);
    assert!(!c.running);
    assert_eq!(s.pointer_press(272, false, ResizeEdge::Left, true, Some(key)), PointerAction::StartResize);
    assert_eq!(s.resize_edge, ResizeEdge::Left);
    assert_eq!(s.resize_start_size, (1280, 480));
    assert_eq!(s.resize_start_margin, (320, 60));
    assert_eq!(s.pointer_press(272, false, ResizeEdge::NoEdge, true, Some(key)), PointerAction::StartDrag);
    assert!(s.dragging);
    assert_eq!(s.pointer_press(272, false, ResizeEdge::NoEdge, false, Some(key)), PointerAction::PressKey(key));
    assert_eq!(s.pointer_press(272, false, ResizeEdge::NoEdge, false, None), PointerAction::Nothing);
    s.hover_key_id = Some(3);
    s.pointer_leave();
    assert!(!s.dragging && s.resize_edge == ResizeEdge::NoEdge && s.hover_key_id.is_none());
}

#[test]
fn dragging_moves_keyboard_and_sidebar() {
    let mut s = configured();
    assert!(!s.drag_by(0, 0, 1));
    assert_eq!(s.pending_margin, None);
    assert!(s.drag_by(5, -3, 1));
    assert_eq!((s.margin_x, s.margin_y), (325, 57));
    assert_eq!(s.pending_margin, Some((325, 57)));
    assert_eq!(s.pending_sidebar_margin, Some((325 + 1280 + 8, 57)));
    assert_eq!(s.pending_sidebar_size, Some((1, 480)));
}

#[test]
fn resize_sets_pending_geometry() {
    let mut s = configured();
    s.apply_resize(1000, 375, 300, 70, 130);
    assert_eq!((s.width, s.height, s.margin_x, s.margin_y), (1000, 375, 300, 70));
    assert_eq!(s.pending_size, Some((1000, 375)));
    assert_eq!(s.pending_margin, Some((300, 70)));
    assert_eq!(s.pending_sidebar_size, Some((130, 375)));
    assert_eq!(s.pending_sidebar_margin, Some((1308, 70)));
    let g = s.take_pending_geometry(false, true);
    assert_eq!(g, GeometryUpdate { size: Some((1000, 375)), margin: Some((300, 70)), changed: true });
    assert_eq!(s.take_pending_geometry(false, true), GeometryUpdate { size: None, margin: None, changed: false });
    assert_eq!(s.take_pending_geometry(true, false), GeometryUpdate { size: None, margin: None, changed: false });
    assert_eq!(s.pending_sidebar_size, Some((130, 375)));
    let g = s.take_pending_geometry(true, true);
    assert_eq!(g.size, Some((130, 375)));
    assert!(g.changed);
    assert_eq!(s.pending_sidebar_margin, None);
}

#[test]
fn draw_plan_shows_sidebar_while_visible() {
    let mut s = TypdState::new();
    assert_eq!(s.draw_plan(false), DrawPlan { main: false, sidebar: false });
    let mut s = configured();
    assert_eq!(s.draw_plan(true), DrawPlan { main: true, sidebar: false });
    assert_eq!(s.draw_plan(false), DrawPlan { main: true, sidebar: true });
    assert!(s.sidebar_visible);
    assert_eq!(s.draw_plan(true), DrawPlan { main: true, sidebar: true });
    assert!(!s.sidebar_visible);
    assert_eq!(s.draw_plan(true), DrawPlan { main: true, sidebar: false });
}

#[test]
fn injection_reports_unavailability_once() {
    let mut s = configured();
    match s.inject_key(30, false, false, false, true, 0) {
        Injection::Unavailable { reason, report } => {
            assert_eq!(reason, VkbdUnavailable::KeymapNotUploaded);
            assert!(report);
        }
        Injection::Send(_) => panic!("keymap was not uploaded"),
    }
    s.keymap_uploaded = true;
    match s.inject_key(30, false, false, false, false, 0) {
        Injection::Unavailable { reason, report } => {
            assert_eq!(reason, VkbdUnavailable::NoVirtualKeyboard);
            assert!(!report);
        }
        Injection::Send(_) => panic!("no virtual keyboard"),
    }
    match s.inject_key(30, false, false, true, true, 40) {
        Injection::Send(reqs) => assert_eq!(
            reqs,
            vec![
                VkbdRequest::Modifiers { depressed: 8 },
                VkbdRequest::Key { time: 40, key: 30, state: 1 },
                VkbdRequest::Key { time: 48, key: 30, state: 0 },
                VkbdRequest::Modifiers { depressed: 0 },
            ]
        ),
        Injection::Unavailable { .. } => panic!("ready"),
    }
    assert!(s.vkbd_ready(true, true));
    assert!(!s.vkbd_ready(false, true));
}

#[test]
fn hover_changes_are_reported() {
    let mut s = configured();
    assert!(!s.set_hover(None, None));
    assert!(s.set_hover(Some(3), None));
    assert!(!s.set_hover(Some(3), None));
    assert!(s.set_hover(None, Some(80)));
    assert_eq!((s.hover_key_id, s.sidebar_hover_key_id), (None, Some(80)));
}

#[test]
fn vkbd_unavailable_logged_once() {
    let mut s = TypdState::new();
    assert!(s.log_vkbd_unavailable());
    assert!(!s.log_vkbd_unavailable());
}

#[test]
fn every_main_keycode_finds_its_key() {
    let s = configured();
    for slot in &s.keys {
        if let Some(code) = slot.def.linux_keycode {
            assert_eq!(s.key_id_for_keycode(code), Some(slot.id), "{code}");
        }
    }
}

#[test]
fn dragging_back_restores_the_place() {
    let mut s = configured();
    assert!(s.drag_by(40, -25, 260));
    assert!(s.drag_by(-40, 25, 260));
    assert_eq!((s.margin_x, s.margin_y), (320, 60));
    assert_eq!(s.pending_margin, Some((320, 60)));
    assert_eq!(s.pending_sidebar_size, Some((260, 480)));
}
