//! The keyboard's state and the decisions it makes on each event: key
//! presses on the on-screen keyboard, the timer that ends key highlights
//! and repeats held keys, pointer presses on the window chrome, dragging,
//! and the events of the physical keyboard. Each decision returns what
//! the application has to do (type a key, redraw, resize a surface); the
//! application performs it on the Wayland connection.
use vstd::prelude::*;
use crate::keycodes::{
    injection_requests, is_modifier_key, is_repeatable_key, spec_injection_requests,
    spec_is_modifier_key, spec_is_repeatable_key, VkbdRequest,
};
use crate::layout::{
    is_alpha_key, main_slots, sidebar_slots, spec_is_alpha_key, spec_main_slots,
    spec_sidebar_slots, KeyAction, KeySlot,
};
use crate::physical::{spec_cleared, spec_key_event, spec_modifiers_event, PhysicalKeyboard};
use crate::window::ResizeEdge;

verus! {

/// Width of the keyboard surface when it starts, and its largest width.
pub const SURFACE_WIDTH: u32 = 1280;

/// Height of the keyboard surface when it starts, and its largest height.
pub const SURFACE_HEIGHT: u32 = 480;

/// Distance of the keyboard from the left edge of the output at start.
pub const INITIAL_MARGIN_X: i32 = 320;

/// Distance of the keyboard from the bottom edge of the output at start.
pub const INITIAL_MARGIN_Y: i32 = 60;

/// How long a held key waits before it starts repeating, in milliseconds.
pub const INITIAL_REPEAT_DELAY_MS: u64 = 430;

/// Time between two repeats of a held key, in milliseconds.
pub const REPEAT_INTERVAL_MS: u64 = 55;

/// How long a clicked key stays highlighted, in milliseconds.
pub const KEY_FLASH_MS: u64 = 100;

/// How long a repeated key stays highlighted, in milliseconds.
pub const REPEAT_FLASH_MS: u64 = 80;

/// Clicks on the sidebar toggle this soon after the last toggle are
/// ignored, in milliseconds.
pub const TOGGLE_COOLDOWN_MS: u64 = 200;

/// The left mouse button (`BTN_LEFT`).
pub const BUTTON_LEFT: u32 = 272;

/// A key held down with the pointer, which repeats until released.
#[derive(Clone, Copy, PartialEq, Eq, Debug, Structural)]
pub struct HeldKey {
    pub key_id: usize,
    pub keycode: u32,
    pub shift: bool,
    pub ctrl: bool,
    pub alt: bool,
    /// When the key repeats next, in milliseconds on a monotonic clock.
    pub next_repeat: u64,
}

/// A key to type through the virtual keyboard, with its modifiers.
#[derive(Clone, Copy, PartialEq, Eq, Debug, Structural)]
pub struct KeyInjection {
    pub keycode: u32,
    pub shift: bool,
    pub ctrl: bool,
    pub alt: bool,
}

/// What a key press asks of the application.
#[derive(Clone, Copy, PartialEq, Eq, Debug, Structural)]
pub struct PressOutcome {
    /// A key to type.
    pub inject: Option<KeyInjection>,
    /// Whether the keyboard must be redrawn.
    pub redraw: bool,
}

/// What the timer asks of the application.
#[derive(Clone, Copy, PartialEq, Eq, Debug, Structural)]
pub struct TickOutcome {
    /// A repeat of the held key to type.
    pub repeat: Option<KeyInjection>,
    /// Whether the keyboard must be redrawn.
    pub redraw: bool,
}

/// What a press of a mouse button on the keyboard does.
#[derive(Clone, Copy, PartialEq, Eq, Debug)]
pub enum PointerAction {
    /// Nothing: another button, or a press on no key.
    Nothing,
    /// The close button was pressed: the application stops.
    Close,
    /// A resize from an edge or corner starts.
    StartResize,
    /// A drag of the keyboard by its drag bar starts.
    StartDrag,
    /// A key was pressed.
    PressKey(KeySlot),
}

/// Why no key could be typed.
#[derive(Clone, Copy, PartialEq, Eq, Debug, Structural)]
pub enum VkbdUnavailable {
    /// The keymap has not been sent to the compositor.
    KeymapNotUploaded,
    /// The virtual keyboard object has not been created.
    NoVirtualKeyboard,
}

/// What typing a key comes to.
#[derive(Clone, PartialEq, Eq, Debug)]
pub enum Injection {
    /// Nothing is typed; `report` says whether to tell the user (only the
    /// first time the virtual keyboard turns out to be unavailable).
    Unavailable { reason: VkbdUnavailable, report: bool },
    /// Send these requests to the virtual keyboard, then flush.
    Send(Vec<VkbdRequest>),
}

/// Which surfaces to draw.
#[derive(Clone, Copy, PartialEq, Eq, Debug, Structural)]
pub struct DrawPlan {
    pub main: bool,
    pub sidebar: bool,
}

/// Geometry to apply to a layer surface before drawing it.
#[derive(Clone, Copy, PartialEq, Eq, Debug)]
pub struct GeometryUpdate {
    pub size: Option<(u32, u32)>,
    pub margin: Option<(i32, i32)>,
    /// Whether anything changed, so that the surface must be committed.
    pub changed: bool,
}

/// The modifier and lock states to show on the keys: each is on when it
/// is on either on the on-screen keyboard or on the physical keyboard.
#[derive(Clone, Copy, PartialEq, Eq, Debug, Structural)]
pub struct DisplayModifiers {
    pub shift: bool,
    pub caps: bool,
    pub ctrl: bool,
    pub alt: bool,
    pub num: bool,
}

/// The state that clicks on the on-screen keys and the key timer change:
/// the modifiers set on the on-screen keyboard, the sidebar toggle, the
/// highlighted keys and the key held down with the pointer.
#[derive(Clone, Copy, PartialEq, Eq, Debug, Structural)]
pub struct InputState {
    pub shift_active: bool,
    pub caps_active: bool,
    pub ctrl_active: bool,
    pub alt_active: bool,
    pub num_active: bool,
    pub sidebar_expanded: bool,
    /// Until when clicks on the sidebar toggle are ignored (milliseconds).
    pub sidebar_toggle_cooldown: Option<u64>,
    pub sidebar_animating: bool,
    pub active_key_id: Option<usize>,
    pub sidebar_active_key_id: Option<usize>,
    /// Until when the clicked key stays highlighted (milliseconds).
    pub active_key_until: Option<u64>,
    pub held_key: Option<HeldKey>,
}

/// The plain state of the keyboard application.
pub struct TypdState {
    pub width: u32,
    pub height: u32,
    pub configured: bool,
    pub running: bool,
    pub frame_pending: bool,
    pub dragging: bool,
    pub margin_x: i32,
    pub margin_y: i32,
    pub resize_edge: ResizeEdge,
    pub resize_start_size: (u32, u32),
    pub resize_start_margin: (i32, i32),
    pub keymap_uploaded: bool,
    pub vkbd_error_logged: bool,
    pub input: InputState,
    pub physical: PhysicalKeyboard,
    pub keys: Vec<KeySlot>,
    pub hover_key_id: Option<usize>,
    pub sidebar_keys: Vec<KeySlot>,
    pub sidebar_hover_key_id: Option<usize>,
    pub pending_margin: Option<(i32, i32)>,
    pub pending_size: Option<(u32, u32)>,
    pub pending_sidebar_margin: Option<(i32, i32)>,
    pub pending_sidebar_size: Option<(u32, u32)>,
    pub sidebar_configured: bool,
    pub sidebar_visible: bool,
    pub sidebar_needs_configure: bool,
}

/// `v` clamped to the range of `i32`.
pub open spec fn saturate_i32(v: int) -> i32 {
    if v > i32::MAX {
        i32::MAX
    } else if v < i32::MIN {
        i32::MIN
    } else {
        v as i32
    }
}

fn saturating_add_i32(a: i32, b: i32) -> (r: i32)
    ensures
        r == saturate_i32(a + b),
{
    let s: i64 = a as i64 + b as i64;
    if s > i32::MAX as i64 {
        i32::MAX
    } else if s < i32::MIN as i64 {
        i32::MIN
    } else {
        s as i32
    }
}

/// Whether Shift applies to `keycode`: Caps Lock flips it for letters.
pub open spec fn spec_effective_shift(shift_active: bool, caps_active: bool, keycode: u32) -> bool {
    if spec_is_alpha_key(keycode) {
        shift_active != caps_active
    } else {
        shift_active
    }
}

/// The first of `slots` with keycode `keycode`: its position.
pub open spec fn is_first_with_keycode(slots: Seq<KeySlot>, keycode: u32, i: int) -> bool {
    &&& 0 <= i < slots.len()
    &&& slots[i].def.linux_keycode == Some(keycode)
    &&& forall|j: int| 0 <= j < i ==> slots[j].def.linux_keycode != Some(keycode)
}

/// The state and outcome of a click on the on-screen key `key` at time
/// `now` (milliseconds); keys with ids from `main_key_count` on are on the
/// sidebar.
///
/// The sidebar toggle flips the sidebar, unless it is clicked within the
/// cooldown of the last toggle. Any other key is highlighted for a moment.
/// Shift, Caps, Ctrl and Alt flip their state; Num Lock flips its state and
/// types its key, where it has one; a character key types its keycode with
/// the current modifiers (Caps Lock flipping Shift for letters), ends a
/// one-shot Shift unless the key is itself a modifier, and starts repeating
/// if it is a repeating key.
pub open spec fn spec_press_key(s: InputState, key: KeySlot, main_key_count: usize, now: u64) -> (
    InputState,
    PressOutcome,
) {
    if key.def.action == KeyAction::ToggleSidebar {
        if s.sidebar_toggle_cooldown matches Some(until) && now < until {
            (s, PressOutcome { inject: None, redraw: false })
        } else {
            (
                InputState {
                    sidebar_toggle_cooldown: Some((now + TOGGLE_COOLDOWN_MS) as u64),
                    sidebar_expanded: !s.sidebar_expanded,
                    sidebar_animating: true,
                    ..s
                },
                PressOutcome { inject: None, redraw: false },
            )
        }
    } else {
        let s1 = if key.id >= main_key_count {
            InputState { sidebar_active_key_id: Some(key.id), ..s }
        } else {
            InputState { active_key_id: Some(key.id), ..s }
        };
        let s2 = InputState { active_key_until: Some((now + KEY_FLASH_MS) as u64), ..s1 };
        let drawn = PressOutcome { inject: None, redraw: true };
        match key.def.action {
            KeyAction::Shift => (InputState { shift_active: !s2.shift_active, ..s2 }, drawn),
            KeyAction::Caps => (InputState { caps_active: !s2.caps_active, ..s2 }, drawn),
            KeyAction::Ctrl => (InputState { ctrl_active: !s2.ctrl_active, ..s2 }, drawn),
            KeyAction::Alt => (InputState { alt_active: !s2.alt_active, ..s2 }, drawn),
            KeyAction::NumLock => (
                InputState { num_active: !s2.num_active, ..s2 },
                PressOutcome {
                    inject: match key.def.linux_keycode {
                        Some(code) => Some(
                            KeyInjection {
                                keycode: code,
                                shift: s2.shift_active,
                                ctrl: s2.ctrl_active,
                                alt: s2.alt_active,
                            },
                        ),
                        None => None,
                    },
                    redraw: true,
                },
            ),
            KeyAction::Key => match key.def.linux_keycode {
                None => (s2, PressOutcome { inject: None, redraw: false }),
                Some(code) => {
                    let shift = spec_effective_shift(s2.shift_active, s2.caps_active, code);
                    let s3 = if s2.shift_active && !spec_is_modifier_key(code) {
                        InputState { shift_active: false, ..s2 }
                    } else {
                        s2
                    };
                    let s4 = if spec_is_repeatable_key(code) {
                        InputState {
                            held_key: Some(
                                HeldKey {
                                    key_id: key.id,
                                    keycode: code,
                                    shift,
                                    ctrl: s2.ctrl_active,
                                    alt: s2.alt_active,
                                    next_repeat: (now + INITIAL_REPEAT_DELAY_MS) as u64,
                                },
                            ),
                            ..s3
                        }
                    } else {
                        s3
                    };
                    (
                        s4,
                        PressOutcome {
                            inject: Some(
                                KeyInjection {
                                    keycode: code,
                                    shift,
                                    ctrl: s2.ctrl_active,
                                    alt: s2.alt_active,
                                },
                            ),
                            redraw: true,
                        },
                    )
                },
            },
            KeyAction::ToggleSidebar => (s2, drawn),
        }
    }
}

/// The state and outcome of the timer at time `now` (milliseconds): a
/// click highlight whose time is up ends, and a held key whose repeat is
/// due is typed again, highlighted briefly, and rescheduled.
pub open spec fn spec_tick_keys(s: InputState, now: u64) -> (InputState, TickOutcome) {
    let expired = s.active_key_until matches Some(until) && now >= until;
    let s1 = if expired {
        InputState { active_key_id: None, active_key_until: None, ..s }
    } else {
        s
    };
    match s1.held_key {
        Some(h) => if now >= h.next_repeat {
            (
                InputState {
                    active_key_id: Some(h.key_id),
                    active_key_until: Some((now + REPEAT_FLASH_MS) as u64),
                    held_key: Some(HeldKey { next_repeat: (now + REPEAT_INTERVAL_MS) as u64, ..h }),
                    ..s1
                },
                TickOutcome {
                    repeat: Some(
                        KeyInjection { keycode: h.keycode, shift: h.shift, ctrl: h.ctrl, alt: h.alt },
                    ),
                    redraw: true,
                },
            )
        } else {
            (s1, TickOutcome { repeat: None, redraw: expired })
        },
        None => (s1, TickOutcome { repeat: None, redraw: expired }),
    }
}

/// The id of the first of `slots` that types `keycode`, if any.
pub open spec fn spec_first_key_id(slots: Seq<KeySlot>, keycode: u32) -> Option<usize>
    decreases slots.len(),
{
    if slots.len() == 0 {
        None
    } else if slots[0].def.linux_keycode == Some(keycode) {
        Some(slots[0].id)
    } else {
        spec_first_key_id(slots.drop_first(), keycode)
    }
}

proof fn lemma_first_key_id(slots: Seq<KeySlot>, keycode: u32, i: int)
    requires
        0 <= i <= slots.len(),
        forall|j: int| 0 <= j < i ==> slots[j].def.linux_keycode != Some(keycode),
    ensures
        i < slots.len() && slots[i].def.linux_keycode == Some(keycode) ==> spec_first_key_id(
            slots,
            keycode,
        ) == Some(slots[i].id),
        i == slots.len() ==> spec_first_key_id(slots, keycode) is None,
    decreases i,
{
    if i > 0 {
        let rest = slots.drop_first();
        assert forall|j: int| 0 <= j < i - 1 implies rest[j].def.linux_keycode != Some(keycode) by {
            assert(rest[j] == slots[j + 1]);
        }
        lemma_first_key_id(rest, keycode, i - 1);
        if i < slots.len() {
            assert(rest[i - 1] == slots[i]);
        }
    }
}

/// The state and outcome of a press of mouse button `button`. Only the
/// left button acts, and the first of these that applies wins: the close
/// button closes the keyboard; a resize band starts a resize from its
/// edge; the drag bar starts a drag; a key is pressed.
pub open spec fn spec_pointer_press(
    s: TypdState,
    button: u32,
    on_close_button: bool,
    edge: ResizeEdge,
    in_drag_bar: bool,
    hit_key: Option<KeySlot>,
) -> (TypdState, PointerAction) {
    if button != BUTTON_LEFT {
        (s, PointerAction::Nothing)
    } else if on_close_button {
        (TypdState { running: false, ..s }, PointerAction::Close)
    } else if edge != ResizeEdge::NoEdge {
        (
            TypdState {
                resize_edge: edge,
                resize_start_size: (s.width, s.height),
                resize_start_margin: (s.margin_x, s.margin_y),
                ..s
            },
            PointerAction::StartResize,
        )
    } else if in_drag_bar {
        (TypdState { dragging: true, ..s }, PointerAction::StartDrag)
    } else {
        match hit_key {
            Some(k) => (s, PointerAction::PressKey(k)),
            None => (s, PointerAction::Nothing),
        }
    }
}

/// The sidebar geometry to apply next: `sidebar_width` wide, as tall as
/// the keyboard, right of it and level with it.
pub open spec fn with_pending_sidebar(s: TypdState, sidebar_width: u32) -> TypdState {
    TypdState {
        pending_sidebar_size: Some((sidebar_width, s.height)),
        pending_sidebar_margin: Some((s.spec_sidebar_margin_x(), s.margin_y)),
        ..s
    }
}

/// Clicking the sidebar toggle opens a closed sidebar and closes an open
/// one, and a second click after the cooldown undoes the first.
pub proof fn sidebar_toggle_round_trip(
    s: InputState,
    key: KeySlot,
    main_key_count: usize,
    t1: u64,
    t2: u64,
)
    requires
        key.def.action == KeyAction::ToggleSidebar,
        s.sidebar_toggle_cooldown matches Some(until) ==> t1 >= until,
        t1 + TOGGLE_COOLDOWN_MS <= t2,
        t2 + TOGGLE_COOLDOWN_MS <= u64::MAX,
    ensures
        ({
            let (once, out1) = spec_press_key(s, key, main_key_count, t1);
            let (twice, out2) = spec_press_key(once, key, main_key_count, t2);
            &&& once.sidebar_expanded == !s.sidebar_expanded
            &&& twice.sidebar_expanded == s.sidebar_expanded
            &&& once.sidebar_animating && twice.sidebar_animating
            &&& out1.inject is None && out2.inject is None
        }),
{
}

/// A click on the sidebar toggle within the cooldown of the last toggle
/// changes nothing.
pub proof fn sidebar_toggle_debounced(s: InputState, key: KeySlot, main_key_count: usize, now: u64)
    requires
        key.def.action == KeyAction::ToggleSidebar,
        s.sidebar_toggle_cooldown matches Some(until) && now < until,
    ensures
        spec_press_key(s, key, main_key_count, now) == (s, PressOutcome { inject: None, redraw: false }),
{
}

/// Clicking a modifier or lock key (Shift, Caps, Ctrl, Alt, Num) twice
/// leaves every modifier and lock as it was.
pub proof fn modifier_click_round_trip(
    s: InputState,
    key: KeySlot,
    main_key_count: usize,
    t1: u64,
    t2: u64,
)
    requires
        key.def.action == KeyAction::Shift || key.def.action == KeyAction::Caps
            || key.def.action == KeyAction::Ctrl || key.def.action == KeyAction::Alt
            || key.def.action == KeyAction::NumLock,
        t1 + KEY_FLASH_MS <= u64::MAX,
        t2 + KEY_FLASH_MS <= u64::MAX,
    ensures
        ({
            let once = spec_press_key(s, key, main_key_count, t1).0;
            let twice = spec_press_key(once, key, main_key_count, t2).0;
            &&& twice.shift_active == s.shift_active
            &&& twice.caps_active == s.caps_active
            &&& twice.ctrl_active == s.ctrl_active
            &&& twice.alt_active == s.alt_active
            &&& twice.num_active == s.num_active
        }),
{
}

/// Shift set on the on-screen keyboard applies to one key only: typing a
/// key that is not a modifier turns it off, while Ctrl and Alt stay set.
/// The key is typed with Shift as it was set, flipped by Caps Lock for a
/// letter.
pub proof fn shift_is_one_shot(s: InputState, key: KeySlot, main_key_count: usize, now: u64)
    requires
        key.def.action == KeyAction::Key,
        key.def.linux_keycode matches Some(code) && !spec_is_modifier_key(code),
        now + INITIAL_REPEAT_DELAY_MS <= u64::MAX,
    ensures
        ({
            let (after, out) = spec_press_key(s, key, main_key_count, now);
            let code = key.def.linux_keycode->Some_0;
            &&& !after.shift_active
            &&& after.ctrl_active == s.ctrl_active && after.alt_active == s.alt_active
            &&& after.caps_active == s.caps_active
            &&& out.inject == Some(
                KeyInjection {
                    keycode: code,
                    shift: spec_effective_shift(s.shift_active, s.caps_active, code),
                    ctrl: s.ctrl_active,
                    alt: s.alt_active,
                },
            )
        }),
{
}

/// A repeating key held down after a click is typed again by the timer
/// exactly as the click typed it, once its first delay has passed and not
/// before; each repeat schedules the next one.
pub proof fn held_key_repeats_what_it_typed(
    s: InputState,
    key: KeySlot,
    main_key_count: usize,
    now: u64,
    later: u64,
)
    requires
        key.def.action == KeyAction::Key,
        key.def.linux_keycode matches Some(code) && spec_is_repeatable_key(code),
        now <= later,
        later + INITIAL_REPEAT_DELAY_MS <= u64::MAX,
    ensures
        ({
            let (pressed, out) = spec_press_key(s, key, main_key_count, now);
            let (ticked, tick) = spec_tick_keys(pressed, later);
            &&& later < now + INITIAL_REPEAT_DELAY_MS ==> tick.repeat is None
            &&& later >= now + INITIAL_REPEAT_DELAY_MS ==> {
                &&& tick.repeat == out.inject
                &&& ticked.active_key_id == Some(key.id)
                &&& ticked.held_key matches Some(h) && h.next_repeat == later + REPEAT_INTERVAL_MS
            }
        }),
{
}

/// Without a held key the timer never types anything; releasing the mouse
/// button or leaving the keyboard drops the held key.
pub proof fn no_repeat_without_held_key(s: InputState, now: u64)
    requires
        s.held_key is None,
    ensures
        spec_tick_keys(s, now).1.repeat is None,
        spec_tick_keys(s, now).0.held_key is None,
{
}

/// A click highlight ends once its time is up, unless a repeat of the held
/// key is due at the same tick and highlights its key anew.
pub proof fn highlight_expires(s: InputState, now: u64)
    requires
        s.active_key_until matches Some(until) && now >= until,
        !(s.held_key matches Some(h) && now >= h.next_repeat),
    ensures
        spec_tick_keys(s, now).0.active_key_id is None,
        spec_tick_keys(s, now).0.active_key_until is None,
        spec_tick_keys(s, now).1.redraw,
{
}

/// A keycode of a key of the main keyboard leads back to that key: the
/// physical keyboard highlights the on-screen key that it pressed, whatever
/// keys follow on the sidebar.
pub proof fn keycode_finds_its_main_key(sidebar_expanded: bool, sidebar: Seq<KeySlot>, k: int)
    requires
        0 <= k < 78,
        spec_main_slots(sidebar_expanded)[k].def.linux_keycode is Some,
    ensures
        spec_first_key_id(
            spec_main_slots(sidebar_expanded) + sidebar,
            spec_main_slots(sidebar_expanded)[k].def.linux_keycode->Some_0,
        ) == Some(k as usize),
{
    let main = spec_main_slots(sidebar_expanded);
    let all = main + sidebar;
    let code = main[k].def.linux_keycode->Some_0;
    crate::layout::main_keycodes_are_distinct(sidebar_expanded);
    crate::layout::layout_ids_are_positions(sidebar_expanded);
    assert forall|j: int| 0 <= j < k implies all[j].def.linux_keycode != Some(code) by {
        assert(all[j] == main[j]);
    }
    assert(all[k] == main[k]);
    lemma_first_key_id(all, code, k);
}

/// The state after a drag by (`dx`, `dy`) whole pixels, `dy` upwards: the
/// keyboard moves by exactly that much, its new place is pending for the
/// compositor, and the sidebar, `sidebar_width` wide, follows. A drag by
/// nothing changes nothing.
pub open spec fn spec_drag_by(s: TypdState, dx: i32, dy: i32, sidebar_width: u32) -> TypdState {
    if dx == 0 && dy == 0 {
        s
    } else {
        let mx = (s.margin_x + dx) as i32;
        let my = (s.margin_y + dy) as i32;
        with_pending_sidebar(
            TypdState { margin_x: mx, margin_y: my, pending_margin: Some((mx, my)), ..s },
            sidebar_width,
        )
    }
}

/// Dragging back by the opposite amount puts the keyboard back where it
/// was.
pub proof fn drag_back_returns(s: TypdState, dx: i32, dy: i32, sidebar_width: u32)
    requires
        i32::MIN <= s.margin_x + dx <= i32::MAX,
        i32::MIN <= s.margin_y + dy <= i32::MAX,
        dx != i32::MIN && dy != i32::MIN,
    ensures
        spec_drag_by(spec_drag_by(s, dx, dy, sidebar_width), -dx as i32, -dy as i32, sidebar_width).margin_x
            == s.margin_x,
        spec_drag_by(spec_drag_by(s, dx, dy, sidebar_width), -dx as i32, -dy as i32, sidebar_width).margin_y
            == s.margin_y,
{
}

/// A left click on the close button closes the keyboard, whatever else is
/// under the pointer.
pub proof fn close_button_wins(
    s: TypdState,
    edge: ResizeEdge,
    in_drag_bar: bool,
    hit_key: Option<KeySlot>,
)
    ensures
        spec_pointer_press(s, BUTTON_LEFT, true, edge, in_drag_bar, hit_key) == (
        TypdState { running: false, ..s }, PointerAction::Close),
{
}

/// A repeat changes nothing of the held key but its schedule: the key, its
/// keycode and the Shift, Ctrl and Alt it was typed with stay, so every
/// repeat types the same as the one before, and the next one is due 55 ms
/// later.
pub proof fn repeats_keep_the_held_key(s: InputState, t1: u64, t2: u64)
    requires
        s.held_key matches Some(h) && t1 >= h.next_repeat,
        t1 + REPEAT_INTERVAL_MS <= t2,
        t2 + REPEAT_FLASH_MS <= u64::MAX,
    ensures
        ({
            let h = s.held_key->Some_0;
            let (s1, out1) = spec_tick_keys(s, t1);
            let (s2, out2) = spec_tick_keys(s1, t2);
            &&& out1.repeat == Some(
                KeyInjection { keycode: h.keycode, shift: h.shift, ctrl: h.ctrl, alt: h.alt },
            )
            &&& s1.held_key == Some(
                HeldKey {
                    key_id: h.key_id,
                    keycode: h.keycode,
                    shift: h.shift,
                    ctrl: h.ctrl,
                    alt: h.alt,
                    next_repeat: (t1 + 55) as u64,
                },
            )
            &&& s1.active_key_id == Some(h.key_id)
            &&& out2.repeat == out1.repeat
            &&& s2.held_key == Some(
                HeldKey {
                    key_id: h.key_id,
                    keycode: h.keycode,
                    shift: h.shift,
                    ctrl: h.ctrl,
                    alt: h.alt,
                    next_repeat: (t2 + 55) as u64,
                },
            )
        }),
{
}

/// Caps Lock changes the case of letters only: a click on a key that types
/// a keycode sends Shift as set on the on-screen keyboard, flipped by Caps
/// Lock exactly when the key is a letter (keycodes 16 to 25, 30 to 38 and
/// 44 to 50); Ctrl and Alt are sent as set.
pub proof fn caps_lock_flips_letters_only(s: InputState, key: KeySlot, main_key_count: usize, now: u64)
    requires
        key.def.action == KeyAction::Key,
        key.def.linux_keycode is Some,
        now + INITIAL_REPEAT_DELAY_MS <= u64::MAX,
    ensures
        ({
            let code = key.def.linux_keycode->Some_0;
            let letter = (16 <= code <= 25 || 30 <= code <= 38 || 44 <= code <= 50);
            spec_press_key(s, key, main_key_count, now).1.inject == Some(
                KeyInjection {
                    keycode: code,
                    shift: if letter {
                        s.shift_active != s.caps_active
                    } else {
                        s.shift_active
                    },
                    ctrl: s.ctrl_active,
                    alt: s.alt_active,
                },
            )
        }),
        forall|sh: bool, caps: bool, code: u32|
            !(16 <= code <= 25 || 30 <= code <= 38 || 44 <= code <= 50) ==> #[trigger] spec_effective_shift(
                sh,
                caps,
                code,
            ) == sh,
        forall|sh: bool, caps: bool, code: u32|
            (16 <= code <= 25 || 30 <= code <= 38 || 44 <= code <= 50) ==> #[trigger] spec_effective_shift(
                sh,
                caps,
                code,
            ) == (sh != caps),
{
}

impl TypdState {
    /// The state at start: a 1280x480 keyboard 320 pixels from the left
    /// and 60 from the bottom, running, not yet configured, with no key,
    /// modifier, drag or resize active and the sidebar collapsed.
    pub fn new() -> (s: TypdState)
        ensures
            s.width == SURFACE_WIDTH && s.height == SURFACE_HEIGHT,
            s.margin_x == INITIAL_MARGIN_X && s.margin_y == INITIAL_MARGIN_Y,
            s.running && !s.configured && !s.frame_pending,
            !s.dragging && s.resize_edge == ResizeEdge::NoEdge,
            s.resize_start_size == (SURFACE_WIDTH, SURFACE_HEIGHT),
            s.resize_start_margin == (0i32, 0i32),
            !s.keymap_uploaded && !s.vkbd_error_logged,
            s.input == InputState::spec_new(),
            s.physical@ == spec_cleared(),
            s.keys@.len() == 0 && s.sidebar_keys@.len() == 0,
            s.hover_key_id is None && s.sidebar_hover_key_id is None,
            s.pending_margin is None && s.pending_size is None,
            s.pending_sidebar_margin is None && s.pending_sidebar_size is None,
            !s.sidebar_configured && !s.sidebar_visible,
            s.sidebar_needs_configure,
    {
        TypdState {
            width: SURFACE_WIDTH,
            height: SURFACE_HEIGHT,
            configured: false,
            running: true,
            frame_pending: false,
            dragging: false,
            margin_x: INITIAL_MARGIN_X,
            margin_y: INITIAL_MARGIN_Y,
            resize_edge: ResizeEdge::NoEdge,
            resize_start_size: (SURFACE_WIDTH, SURFACE_HEIGHT),
            resize_start_margin: (0, 0),
            keymap_uploaded: false,
            vkbd_error_logged: false,
            input: InputState::new(),
            physical: PhysicalKeyboard::new(),
            keys: Vec::new(),
            hover_key_id: None,
            sidebar_keys: Vec::new(),
            sidebar_hover_key_id: None,
            pending_margin: None,
            pending_size: None,
            pending_sidebar_margin: None,
            pending_sidebar_size: None,
            sidebar_configured: false,
            sidebar_visible: false,
            sidebar_needs_configure: true,
        }
    }

    /// Where the sidebar starts: right of the keyboard and the gap after
    /// it, clamped to the range of `i32`.
    pub open spec fn spec_sidebar_margin_x(self) -> i32 {
        saturate_i32(saturate_i32(self.margin_x + (self.width as i32)) + 8)
    }

    /// Where the sidebar starts; see [`Self::spec_sidebar_margin_x`].
    pub fn sidebar_margin_x(&self) -> (x: i32)
        ensures
            x == self.spec_sidebar_margin_x(),
    {
        let gap: i32 = 8;
        saturating_add_i32(saturating_add_i32(self.margin_x, self.width as i32), gap)
    }

    /// The mouse button came up: any drag, resize or key repeat ends.
    pub fn pointer_release(&mut self)
        ensures
            *final(self) == (TypdState {
                dragging: false,
                resize_edge: ResizeEdge::NoEdge,
                input: InputState { held_key: None, ..old(self).input },
                ..*old(self)
            }),
    {
        self.dragging = false;
        self.resize_edge = ResizeEdge::NoEdge;
        self.input.held_key = None;
    }

    /// The pointer left the keyboard: as a release, and no key is hovered.
    pub fn pointer_leave(&mut self)
        ensures
            *final(self) == (TypdState {
                dragging: false,
                resize_edge: ResizeEdge::NoEdge,
                input: InputState { held_key: None, ..old(self).input },
                hover_key_id: None,
                sidebar_hover_key_id: None,
                ..*old(self)
            }),
    {
        self.pointer_release();
        self.hover_key_id = None;
        self.sidebar_hover_key_id = None;
    }

    /// A press of mouse button `button`, where the flags and `hit_key` say
    /// what is under the pointer; see [`spec_pointer_press`].
    pub fn pointer_press(
        &mut self,
        button: u32,
        on_close_button: bool,
        edge: ResizeEdge,
        in_drag_bar: bool,
        hit_key: Option<KeySlot>,
    ) -> (act: PointerAction)
        ensures
            (*final(self), act) == spec_pointer_press(
                *old(self),
                button,
                on_close_button,
                edge,
                in_drag_bar,
                hit_key,
            ),
    {
        if button != BUTTON_LEFT {
            return PointerAction::Nothing;
        }
        if on_close_button {
            self.running = false;
            return PointerAction::Close;
        }
        if edge != ResizeEdge::NoEdge {
            self.resize_edge = edge;
            self.resize_start_size = (self.width, self.height);
            self.resize_start_margin = (self.margin_x, self.margin_y);
            return PointerAction::StartResize;
        }
        if in_drag_bar {
            self.dragging = true;
            return PointerAction::StartDrag;
        }
        match hit_key {
            Some(k) => PointerAction::PressKey(k),
            None => PointerAction::Nothing,
        }
    }

    /// Schedules the sidebar's geometry: `sidebar_width` wide, beside the
    /// keyboard; see [`with_pending_sidebar`].
    pub fn set_pending_sidebar(&mut self, sidebar_width: u32)
        ensures
            *final(self) == with_pending_sidebar(*old(self), sidebar_width),
    {
        let x = self.sidebar_margin_x();
        self.pending_sidebar_size = Some((sidebar_width, self.height));
        self.pending_sidebar_margin = Some((x, self.margin_y));
    }

    /// A drag moved the pointer by (`dx`, `dy`) whole pixels, `dy` upwards;
    /// see [`spec_drag_by`]. Returns whether anything moved.
    pub fn drag_by(&mut self, dx: i32, dy: i32, sidebar_width: u32) -> (moved: bool)
        requires
            i32::MIN <= old(self).margin_x + dx <= i32::MAX,
            i32::MIN <= old(self).margin_y + dy <= i32::MAX,
        ensures
            moved == (dx != 0 || dy != 0),
            *final(self) == spec_drag_by(*old(self), dx, dy, sidebar_width),
    {
        let new_mx = self.margin_x + dx;
        let new_my = self.margin_y + dy;
        if new_mx != self.margin_x || new_my != self.margin_y {
            self.margin_x = new_mx;
            self.margin_y = new_my;
            self.pending_margin = Some((new_mx, new_my));
            self.set_pending_sidebar(sidebar_width);
            true
        } else {
            false
        }
    }

    /// Recomputes the numbered keys of the main keyboard and the sidebar.
    pub fn relayout(&mut self)
        ensures
            final(self).keys@ == spec_main_slots(old(self).input.sidebar_expanded),
            final(self).sidebar_keys@ == spec_sidebar_slots(78),
            *final(self) == (TypdState {
                keys: final(self).keys,
                sidebar_keys: final(self).sidebar_keys,
                ..*old(self)
            }),
    {
        proof {
            crate::layout::layout_ids_are_positions(self.input.sidebar_expanded);
        }
        self.keys = main_slots(self.input.sidebar_expanded);
        self.sidebar_keys = sidebar_slots(self.keys.len());
    }

    /// The end of a resize step: the keyboard is `width` by `height` at
    /// (`margin_x`, `margin_y`), the sidebar `sidebar_width` wide follows,
    /// and the keys are laid out again.
    pub fn apply_resize(
        &mut self,
        width: u32,
        height: u32,
        margin_x: i32,
        margin_y: i32,
        sidebar_width: u32,
    )
        ensures
            final(self).keys@ == spec_main_slots(old(self).input.sidebar_expanded),
            final(self).sidebar_keys@ == spec_sidebar_slots(78),
            *final(self) == with_pending_sidebar(
                TypdState {
                    width,
                    height,
                    margin_x,
                    margin_y,
                    pending_size: Some((width, height)),
                    pending_margin: Some((margin_x, margin_y)),
                    keys: final(self).keys,
                    sidebar_keys: final(self).sidebar_keys,
                    ..*old(self)
                },
                sidebar_width,
            ),
    {
        self.width = width;
        self.height = height;
        self.margin_x = margin_x;
        self.margin_y = margin_y;
        self.pending_size = Some((width, height));
        self.pending_margin = Some((margin_x, margin_y));
        self.set_pending_sidebar(sidebar_width);
        self.relayout();
    }

    /// The compositor configured the keyboard surface: a size of 0 in
    /// either direction keeps the current one. The keys are laid out again.
    pub fn configure_main(&mut self, new_width: u32, new_height: u32)
        ensures
            final(self).keys@ == spec_main_slots(old(self).input.sidebar_expanded),
            final(self).sidebar_keys@ == spec_sidebar_slots(78),
            *final(self) == (TypdState {
                width: if new_width != 0 {
                    new_width
                } else {
                    old(self).width
                },
                height: if new_height != 0 {
                    new_height
                } else {
                    old(self).height
                },
                configured: true,
                keys: final(self).keys,
                sidebar_keys: final(self).sidebar_keys,
                ..*old(self)
            }),
    {
        if new_width != 0 {
            self.width = new_width;
        }
        if new_height != 0 {
            self.height = new_height;
        }
        self.configured = true;
        self.relayout();
    }

    /// The compositor configured the sidebar surface: it may be drawn now,
    /// and its keys are laid out again, numbered after the main keys.
    pub fn configure_sidebar(&mut self)
        requires
            old(self).keys@.len() + 12 <= usize::MAX,
        ensures
            final(self).sidebar_keys@ == spec_sidebar_slots(old(self).keys@.len() as int),
            *final(self) == (TypdState {
                sidebar_configured: true,
                sidebar_needs_configure: false,
                sidebar_keys: final(self).sidebar_keys,
                ..*old(self)
            }),
    {
        self.sidebar_configured = true;
        self.sidebar_needs_configure = false;
        self.sidebar_keys = sidebar_slots(self.keys.len());
    }

    /// Records the hovered keys; returns whether they changed.
    pub fn set_hover(&mut self, main: Option<usize>, sidebar: Option<usize>) -> (changed: bool)
        ensures
            changed == (old(self).hover_key_id != main || old(self).sidebar_hover_key_id
                != sidebar),
            *final(self) == if changed {
                TypdState { hover_key_id: main, sidebar_hover_key_id: sidebar, ..*old(self) }
            } else {
                *old(self)
            },
    {
        let changed = self.hover_key_id != main || self.sidebar_hover_key_id != sidebar;
        if changed {
            self.hover_key_id = main;
            self.sidebar_hover_key_id = sidebar;
        }
        changed
    }

    /// The modifiers to show as on.
    pub fn display_modifiers(&self) -> (m: DisplayModifiers)
        ensures
            m == (DisplayModifiers {
                shift: self.input.shift_active || self.physical@.shift,
                caps: self.input.caps_active || self.physical@.caps,
                ctrl: self.input.ctrl_active || self.physical@.ctrl,
                alt: self.input.alt_active || self.physical@.alt,
                num: self.input.num_active || self.physical@.num,
            }),
    {
        DisplayModifiers {
            shift: self.input.shift_active || self.physical.shift(),
            caps: self.input.caps_active || self.physical.caps(),
            ctrl: self.input.ctrl_active || self.physical.ctrl(),
            alt: self.input.alt_active || self.physical.alt(),
            num: self.input.num_active || self.physical.num(),
        }
    }

    /// Whether keys can be typed: the compositor offers the virtual
    /// keyboard manager, the virtual keyboard exists and has its keymap.
    pub fn vkbd_ready(&self, manager_present: bool, vkbd_present: bool) -> (b: bool)
        ensures
            b == (manager_present && vkbd_present && self.keymap_uploaded),
    {
        manager_present && vkbd_present && self.keymap_uploaded
    }

    /// The virtual keyboard is unavailable: returns whether to tell the
    /// user, which is only the first time.
    pub fn log_vkbd_unavailable(&mut self) -> (report: bool)
        ensures
            report == !old(self).vkbd_error_logged,
            *final(self) == (TypdState { vkbd_error_logged: true, ..*old(self) }),
    {
        let report = !self.vkbd_error_logged;
        self.vkbd_error_logged = true;
        report
    }

    /// Types `keycode` with the given modifiers at time `time`
    /// (milliseconds), if the keymap has been sent and the virtual keyboard
    /// exists; otherwise says why not, reporting it only the first time.
    pub fn inject_key(
        &mut self,
        keycode: u32,
        shift: bool,
        ctrl: bool,
        alt: bool,
        vkbd_present: bool,
        time: u32,
    ) -> (inj: Injection)
        requires
            time + 8 <= u32::MAX,
        ensures
            match inj {
                Injection::Unavailable { reason, report } => {
                    &&& !old(self).keymap_uploaded || !vkbd_present
                    &&& reason == if !old(self).keymap_uploaded {
                        VkbdUnavailable::KeymapNotUploaded
                    } else {
                        VkbdUnavailable::NoVirtualKeyboard
                    }
                    &&& report == !old(self).vkbd_error_logged
                    &&& *final(self) == (TypdState { vkbd_error_logged: true, ..*old(self) })
                },
                Injection::Send(reqs) => {
                    &&& old(self).keymap_uploaded && vkbd_present
                    &&& reqs@ == spec_injection_requests(keycode, shift, ctrl, alt, time)
                    &&& *final(self) == *old(self)
                },
            },
    {
        if !self.keymap_uploaded {
            let report = self.log_vkbd_unavailable();
            return Injection::Unavailable { reason: VkbdUnavailable::KeymapNotUploaded, report };
        }
        if !vkbd_present {
            let report = self.log_vkbd_unavailable();
            return Injection::Unavailable { reason: VkbdUnavailable::NoVirtualKeyboard, report };
        }
        Injection::Send(injection_requests(keycode, shift, ctrl, alt, time))
    }

    /// Decides which surfaces to draw. The keyboard is drawn once it is
    /// configured. The sidebar is drawn once configured, while it is shown
    /// (not `sidebar_hidden`), still visible or animating; it is then
    /// visible exactly when it is not hidden.
    pub fn draw_plan(&mut self, sidebar_hidden: bool) -> (plan: DrawPlan)
        ensures
            plan.main == old(self).configured,
            plan.sidebar == (old(self).sidebar_configured && (!sidebar_hidden
                || old(self).sidebar_visible || old(self).input.sidebar_animating)),
            *final(self) == if plan.sidebar {
                TypdState { sidebar_visible: !sidebar_hidden, ..*old(self) }
            } else {
                *old(self)
            },
    {
        let main = self.configured;
        let sidebar = self.sidebar_configured && (!sidebar_hidden || self.sidebar_visible
            || self.input.sidebar_animating);
        if sidebar {
            self.sidebar_visible = !sidebar_hidden;
        }
        DrawPlan { main, sidebar }
    }

    /// Takes the pending geometry of the keyboard surface or, with
    /// `is_sidebar`, of the sidebar surface, if that surface exists; a
    /// surface that does not exist keeps its pending geometry.
    pub fn take_pending_geometry(&mut self, is_sidebar: bool, surface_present: bool) -> (g:
        GeometryUpdate)
        ensures
            !surface_present ==> g == (GeometryUpdate { size: None, margin: None, changed: false })
                && *final(self) == *old(self),
            surface_present && !is_sidebar ==> g == (GeometryUpdate {
                size: old(self).pending_size,
                margin: old(self).pending_margin,
                changed: old(self).pending_size is Some || old(self).pending_margin is Some,
            }) && *final(self) == (TypdState {
                pending_size: None,
                pending_margin: None,
                ..*old(self)
            }),
            surface_present && is_sidebar ==> g == (GeometryUpdate {
                size: old(self).pending_sidebar_size,
                margin: old(self).pending_sidebar_margin,
                changed: old(self).pending_sidebar_size is Some
                    || old(self).pending_sidebar_margin is Some,
            }) && *final(self) == (TypdState {
                pending_sidebar_size: None,
                pending_sidebar_margin: None,
                ..*old(self)
            }),
    {
        if !surface_present {
            return GeometryUpdate { size: None, margin: None, changed: false };
        }
        let (size, margin) = if is_sidebar {
            let s = self.pending_sidebar_size;
            let m = self.pending_sidebar_margin;
            self.pending_sidebar_size = None;
            self.pending_sidebar_margin = None;
            (s, m)
        } else {
            let s = self.pending_size;
            let m = self.pending_margin;
            self.pending_size = None;
            self.pending_margin = None;
            (s, m)
        };
        let changed = size.is_some() || margin.is_some();
        GeometryUpdate { size, margin, changed }
    }

    /// A key event of the physical keyboard for evdev code `key` (the
    /// keycode is `key + 8`): the on-screen key with that keycode, if any,
    /// is marked held or released, and the modifier states follow.
    /// Returns the keycode.
    pub fn physical_key(&mut self, key: u32, pressed: bool) -> (keycode: u32)
        requires
            key + 8 <= u32::MAX,
        ensures
            keycode == key + 8,
            final(self).physical@ == spec_key_event(
                old(self).physical@,
                spec_first_key_id(old(self).keys@ + old(self).sidebar_keys@, keycode),
                keycode,
                pressed,
            ),
            *final(self) == (TypdState { physical: final(self).physical, ..*old(self) }),
    {
        let keycode = key + 8;
        let id = self.key_id_for_keycode(keycode);
        self.physical.key_event(id, keycode, pressed);
        keycode
    }

    /// The compositor reported the modifier masks of the physical keyboard.
    pub fn physical_modifiers(&mut self, depressed: u32, latched: u32, locked: u32)
        ensures
            final(self).physical@ == spec_modifiers_event(
                old(self).physical@,
                depressed,
                latched,
                locked,
            ),
            *final(self) == (TypdState { physical: final(self).physical, ..*old(self) }),
    {
        self.physical.modifiers_event(depressed, latched, locked);
    }

    /// Forgets the physical keyboard's held keys and modifiers (the
    /// keyboard left, or went away).
    pub fn clear_physical_keyboard_state(&mut self)
        ensures
            final(self).physical@ == spec_cleared(),
            *final(self) == (TypdState { physical: final(self).physical, ..*old(self) }),
    {
        self.physical.clear();
    }

    /// The id of the first key, on the main keyboard and then on the
    /// sidebar, that types `keycode`; `None` if no key does.
    pub fn key_id_for_keycode(&self, keycode: u32) -> (r: Option<usize>)
        ensures
            r == spec_first_key_id(self.keys@ + self.sidebar_keys@, keycode),
            match r {
                Some(id) => exists|i: int|
                    is_first_with_keycode(self.keys@ + self.sidebar_keys@, keycode, i) && (
                    self.keys@ + self.sidebar_keys@)[i].id == id,
                None => forall|i: int|
                    0 <= i < (self.keys@ + self.sidebar_keys@).len() ==> (self.keys@
                        + self.sidebar_keys@)[i].def.linux_keycode != Some(keycode),
            },
    {
        let ghost all = self.keys@ + self.sidebar_keys@;
        let mut i: usize = 0;
        while i < self.keys.len()
            invariant
                i <= self.keys@.len(),
                all == self.keys@ + self.sidebar_keys@,
                forall|j: int| 0 <= j < i ==> all[j].def.linux_keycode != Some(keycode),
            decreases self.keys@.len() - i,
        {
            if self.keys[i].def.linux_keycode == Some(keycode) {
                assert(is_first_with_keycode(all, keycode, i as int));
                proof {
                    lemma_first_key_id(all, keycode, i as int);
                }
                return Some(self.keys[i].id);
            }
            i = i + 1;
        }
        let mut k: usize = 0;
        while k < self.sidebar_keys.len()
            invariant
                k <= self.sidebar_keys@.len(),
                all == self.keys@ + self.sidebar_keys@,
                forall|j: int| 0 <= j < self.keys@.len() + k ==> all[j].def.linux_keycode != Some(keycode),
            decreases self.sidebar_keys@.len() - k,
        {
            if self.sidebar_keys[k].def.linux_keycode == Some(keycode) {
                assert(all[self.keys@.len() + k] == self.sidebar_keys@[k as int]);
                assert(is_first_with_keycode(all, keycode, self.keys@.len() + k));
                proof {
                    lemma_first_key_id(all, keycode, self.keys@.len() + k);
                }
                return Some(self.sidebar_keys[k].id);
            }
            k = k + 1;
        }
        proof {
            lemma_first_key_id(all, keycode, all.len() as int);
        }
        None
    }

}


impl InputState {
    /// Nothing set, nothing highlighted or held, the sidebar collapsed.
    pub open spec fn spec_new() -> InputState {
        InputState {
            shift_active: false,
            caps_active: false,
            ctrl_active: false,
            alt_active: false,
            num_active: false,
            sidebar_expanded: false,
            sidebar_toggle_cooldown: None,
            sidebar_animating: false,
            active_key_id: None,
            sidebar_active_key_id: None,
            active_key_until: None,
            held_key: None,
        }
    }

    /// The state at start; see [`Self::spec_new`].
    pub fn new() -> (s: InputState)
        ensures
            s == InputState::spec_new(),
    {
        InputState {
            shift_active: false,
            caps_active: false,
            ctrl_active: false,
            alt_active: false,
            num_active: false,
            sidebar_expanded: false,
            sidebar_toggle_cooldown: None,
            sidebar_animating: false,
            active_key_id: None,
            sidebar_active_key_id: None,
            active_key_until: None,
            held_key: None,
        }
    }

    /// Whether Shift applies to `keycode`; see [`spec_effective_shift`].
    pub fn effective_shift_for_key(&self, keycode: u32) -> (b: bool)
        ensures
            b == spec_effective_shift(self.shift_active, self.caps_active, keycode),
    {
        if is_alpha_key(keycode) {
            self.shift_active ^ self.caps_active
        } else {
            self.shift_active
        }
    }

    /// A click on the on-screen key `key` at time `now` (milliseconds); see
    /// [`spec_press_key`].
    pub fn press_key(&mut self, key: KeySlot, main_key_count: usize, now: u64) -> (out: PressOutcome)
        requires
            now + INITIAL_REPEAT_DELAY_MS <= u64::MAX,
        ensures
            (*final(self), out) == spec_press_key(*old(self), key, main_key_count, now),
    {
        if key.def.action == KeyAction::ToggleSidebar {
            if let Some(until) = self.sidebar_toggle_cooldown {
                if now < until {
                    return PressOutcome { inject: None, redraw: false };
                }
            }
            self.sidebar_toggle_cooldown = Some(now + TOGGLE_COOLDOWN_MS);
            self.sidebar_expanded = !self.sidebar_expanded;
            self.sidebar_animating = true;
            return PressOutcome { inject: None, redraw: false };
        }
        if key.id >= main_key_count {
            self.sidebar_active_key_id = Some(key.id);
        } else {
            self.active_key_id = Some(key.id);
        }
        self.active_key_until = Some(now + KEY_FLASH_MS);
        match key.def.action {
            KeyAction::ToggleSidebar => PressOutcome { inject: None, redraw: true },
            KeyAction::Shift => {
                self.shift_active = !self.shift_active;
                PressOutcome { inject: None, redraw: true }
            },
            KeyAction::Caps => {
                self.caps_active = !self.caps_active;
                PressOutcome { inject: None, redraw: true }
            },
            KeyAction::Ctrl => {
                self.ctrl_active = !self.ctrl_active;
                PressOutcome { inject: None, redraw: true }
            },
            KeyAction::Alt => {
                self.alt_active = !self.alt_active;
                PressOutcome { inject: None, redraw: true }
            },
            KeyAction::NumLock => {
                self.num_active = !self.num_active;
                let inject = match key.def.linux_keycode {
                    Some(code) => Some(
                        KeyInjection {
                            keycode: code,
                            shift: self.shift_active,
                            ctrl: self.ctrl_active,
                            alt: self.alt_active,
                        },
                    ),
                    None => None,
                };
                PressOutcome { inject, redraw: true }
            },
            KeyAction::Key => {
                let code = match key.def.linux_keycode {
                    Some(code) => code,
                    None => {
                        return PressOutcome { inject: None, redraw: false };
                    },
                };
                let shift = self.effective_shift_for_key(code);
                let injection = KeyInjection {
                    keycode: code,
                    shift,
                    ctrl: self.ctrl_active,
                    alt: self.alt_active,
                };
                if self.shift_active && !is_modifier_key(code) {
                    self.shift_active = false;
                }
                if is_repeatable_key(code) {
                    self.held_key = Some(
                        HeldKey {
                            key_id: key.id,
                            keycode: code,
                            shift,
                            ctrl: self.ctrl_active,
                            alt: self.alt_active,
                            next_repeat: now + INITIAL_REPEAT_DELAY_MS,
                        },
                    );
                }
                PressOutcome { inject: Some(injection), redraw: true }
            },
        }
    }

    /// The timer at time `now` (milliseconds); see [`spec_tick_keys`].
    pub fn tick_keys(&mut self, now: u64) -> (out: TickOutcome)
        requires
            now + REPEAT_FLASH_MS <= u64::MAX,
        ensures
            (*final(self), out) == spec_tick_keys(*old(self), now),
    {
        let mut redraw = false;
        if let Some(until) = self.active_key_until {
            if now >= until {
                self.active_key_id = None;
                self.active_key_until = None;
                redraw = true;
            }
        }
        if let Some(held) = self.held_key {
            if now >= held.next_repeat {
                self.active_key_id = Some(held.key_id);
                self.active_key_until = Some(now + REPEAT_FLASH_MS);
                self.held_key = Some(HeldKey { next_repeat: now + REPEAT_INTERVAL_MS, ..held });
                return TickOutcome {
                    repeat: Some(
                        KeyInjection {
                            keycode: held.keycode,
                            shift: held.shift,
                            ctrl: held.ctrl,
                            alt: held.alt,
                        },
                    ),
                    redraw: true,
                };
            }
        }
        TickOutcome { repeat: None, redraw }
    }
}

} // verus!
