//! Linux keycodes: which keys repeat, which are modifiers, and the
//! requests that type one key through the virtual-keyboard protocol.
use vstd::prelude::*;

verus! {

/// Keys that repeat while the pointer holds them down: the character keys
/// of the number, letter and punctuation rows (2..=53), Space (57), Delete
/// (111) and the arrow and page keys.
pub open spec fn spec_is_repeatable_key(keycode: u32) -> bool {
    ||| 2 <= keycode <= 53
    ||| keycode == 57
    ||| keycode == 111
    ||| keycode == 103
    ||| keycode == 105
    ||| keycode == 106
    ||| keycode == 108
    ||| keycode == 104
    ||| keycode == 109
}

/// Whether a key repeats while held; see [`spec_is_repeatable_key`].
pub fn is_repeatable_key(keycode: u32) -> (b: bool)
    ensures
        b == spec_is_repeatable_key(keycode),
{
    (2 <= keycode && keycode <= 53) || keycode == 57 || keycode == 111 || keycode == 103 || keycode
        == 105 || keycode == 106 || keycode == 108 || keycode == 104 || keycode == 109
}

/// The modifier keys: both Ctrl keys (29, 97), both Shift keys (42, 54),
/// both Alt keys (56, 100) and Super (125).
pub open spec fn spec_is_modifier_key(keycode: u32) -> bool {
    ||| keycode == 29
    ||| keycode == 42
    ||| keycode == 54
    ||| keycode == 56
    ||| keycode == 97
    ||| keycode == 100
    ||| keycode == 125
}

/// Whether a key is a modifier; see [`spec_is_modifier_key`].
pub fn is_modifier_key(keycode: u32) -> (b: bool)
    ensures
        b == spec_is_modifier_key(keycode),
{
    keycode == 29 || keycode == 42 || keycode == 54 || keycode == 56 || keycode == 97 || keycode
        == 100 || keycode == 125
}

/// The XKB modifier mask: Shift is 1, Ctrl 4 and Alt 8.
pub open spec fn spec_modifier_mask(shift: bool, ctrl: bool, alt: bool) -> u32 {
    ((if shift { 1int } else { 0int }) + (if ctrl { 4int } else { 0int }) + (if alt {
        8int
    } else {
        0int
    })) as u32
}

/// The XKB modifier mask of the given modifiers.
pub fn modifier_mask(shift: bool, ctrl: bool, alt: bool) -> (m: u32)
    ensures
        m == spec_modifier_mask(shift, ctrl, alt),
{
    let s: u32 = if shift { 1 } else { 0 };
    let c: u32 = if ctrl { 4 } else { 0 };
    let a: u32 = if alt { 8 } else { 0 };
    assert(s | c | a == s + c + a) by (bit_vector)
        requires
            s == 0 || s == 1,
            c == 0 || c == 4,
            a == 0 || a == 8,
    ;
    s | c | a
}

/// The mask that [`modifier_mask`] builds is read back as the same
/// modifiers by the decoding of the compositor's modifier masks: Shift is
/// bit 0x01, Ctrl 0x04 and Alt 0x08.
pub proof fn modifier_mask_decodes(shift: bool, ctrl: bool, alt: bool)
    ensures
        (spec_modifier_mask(shift, ctrl, alt) & 0x01 != 0) == shift,
        (spec_modifier_mask(shift, ctrl, alt) & 0x04 != 0) == ctrl,
        (spec_modifier_mask(shift, ctrl, alt) & 0x08 != 0) == alt,
        (spec_modifier_mask(shift, ctrl, alt) == 0) == (!shift && !ctrl && !alt),
{
    let m = spec_modifier_mask(shift, ctrl, alt);
    assert(m & 0x01 != 0 <==> shift) by (bit_vector)
        requires
            m == (if shift { 1u32 } else { 0u32 }) + (if ctrl { 4u32 } else { 0u32 }) + (if alt {
                8u32
            } else {
                0u32
            }),
    ;
    assert(m & 0x04 != 0 <==> ctrl) by (bit_vector)
        requires
            m == (if shift { 1u32 } else { 0u32 }) + (if ctrl { 4u32 } else { 0u32 }) + (if alt {
                8u32
            } else {
                0u32
            }),
    ;
    assert(m & 0x08 != 0 <==> alt) by (bit_vector)
        requires
            m == (if shift { 1u32 } else { 0u32 }) + (if ctrl { 4u32 } else { 0u32 }) + (if alt {
                8u32
            } else {
                0u32
            }),
    ;
}

/// A request to the compositor's virtual keyboard.
#[derive(Clone, Copy, PartialEq, Eq, Debug, Structural)]
pub enum VkbdRequest {
    /// Sets the depressed modifier mask (latched, locked and group are 0).
    Modifiers { depressed: u32 },
    /// A key event; `state` is 1 for a press and 0 for a release.
    Key { time: u32, key: u32, state: u32 },
}

/// The requests that type `keycode` once with the given modifiers at time
/// `time` (in milliseconds): set the modifiers, press the key, release it
/// 8 ms later, and clear the modifiers again if any was set.
pub open spec fn spec_injection_requests(
    keycode: u32,
    shift: bool,
    ctrl: bool,
    alt: bool,
    time: u32,
) -> Seq<VkbdRequest> {
    let mods = spec_modifier_mask(shift, ctrl, alt);
    let typed = seq![
        VkbdRequest::Modifiers { depressed: mods },
        VkbdRequest::Key { time, key: keycode, state: 1 },
        VkbdRequest::Key { time: (time + 8) as u32, key: keycode, state: 0 },
    ];
    if mods != 0 {
        typed.push(VkbdRequest::Modifiers { depressed: 0 })
    } else {
        typed
    }
}

/// The requests that type `keycode` once; see [`spec_injection_requests`].
pub fn injection_requests(keycode: u32, shift: bool, ctrl: bool, alt: bool, time: u32) -> (reqs:
    Vec<VkbdRequest>)
    requires
        time + 8 <= u32::MAX,
    ensures
        reqs@ == spec_injection_requests(keycode, shift, ctrl, alt, time),
{
    let mods = modifier_mask(shift, ctrl, alt);
    let mut reqs: Vec<VkbdRequest> = Vec::new();
    reqs.push(VkbdRequest::Modifiers { depressed: mods });
    reqs.push(VkbdRequest::Key { time, key: keycode, state: 1 });
    reqs.push(VkbdRequest::Key { time: time + 8, key: keycode, state: 0 });
    if mods != 0 {
        reqs.push(VkbdRequest::Modifiers { depressed: 0 });
    }
    assert(reqs@ =~= spec_injection_requests(keycode, shift, ctrl, alt, time));
    reqs
}

/// Typing a key presses and then releases that same key, the release
/// later than the press, and leaves no modifier set.
pub proof fn injection_presses_then_releases(
    keycode: u32,
    shift: bool,
    ctrl: bool,
    alt: bool,
    time: u32,
)
    requires
        time + 8 <= u32::MAX,
    ensures
        ({
            let r = spec_injection_requests(keycode, shift, ctrl, alt, time);
            &&& r[1] == VkbdRequest::Key { time, key: keycode, state: 1 }
            &&& r[2] matches VkbdRequest::Key { time: t2, key: k2, state: 0 } && k2 == keycode && t2
                > time
            &&& r[0] == VkbdRequest::Modifiers { depressed: spec_modifier_mask(shift, ctrl, alt) }
            &&& (r.len() == 3 <==> !shift && !ctrl && !alt)
            &&& (r.len() == 3 || (r.len() == 4 && r[3] == VkbdRequest::Modifiers { depressed: 0 }))
        }),
{
    modifier_mask_decodes(shift, ctrl, alt);
}

} // verus!
