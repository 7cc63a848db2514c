//! Tracking of the physical keyboard: which keys are held down, which of
//! them was pressed last, and the modifier and lock states that the
//! compositor reports. The on-screen keyboard highlights these keys.
use vstd::prelude::*;
use crate::keycodes::{modifier_mask_decodes, spec_modifier_mask};

verus! {

/// What a [`PhysicalKeyboard`] holds, as mathematical values.
pub struct PhysicalView {
    /// Ids of the keys held down, in the order in which they went down.
    pub pressed: Seq<usize>,
    /// The key to highlight as the one being typed.
    pub active: Option<usize>,
    pub shift: bool,
    pub caps: bool,
    pub ctrl: bool,
    pub alt: bool,
    pub num: bool,
}

impl PhysicalView {
    /// No key is held twice; a key is active exactly when some key is held,
    /// and then it is one of the held keys.
    pub open spec fn wf(self) -> bool {
        &&& self.pressed.no_duplicates()
        &&& (self.active is None <==> self.pressed.len() == 0)
        &&& (self.active matches Some(a) ==> self.pressed.contains(a))
    }
}

/// `s` with every occurrence of `x` taken out, the rest in order.
pub open spec fn without(s: Seq<usize>, x: usize) -> Seq<usize>
    decreases s.len(),
{
    if s.len() == 0 {
        s
    } else if s.last() == x {
        without(s.drop_last(), x)
    } else {
        without(s.drop_last(), x).push(s.last())
    }
}

/// The state after key `id` went down: it is held (once) and active.
pub open spec fn spec_mark_pressed(v: PhysicalView, id: usize) -> PhysicalView {
    PhysicalView {
        pressed: if v.pressed.contains(id) { v.pressed } else { v.pressed.push(id) },
        active: Some(id),
        ..v
    }
}

/// The state after key `id` came up: it is no longer held, and if it was
/// the active key, the most recently pressed key still held takes over.
pub open spec fn spec_mark_released(v: PhysicalView, id: usize) -> PhysicalView {
    let rest = without(v.pressed, id);
    PhysicalView {
        pressed: rest,
        active: if v.active == Some(id) {
            if rest.len() == 0 {
                None
            } else {
                Some(rest.last())
            }
        } else {
            v.active
        },
        ..v
    }
}

/// Nothing held, nothing active, no modifier or lock on.
pub open spec fn spec_cleared() -> PhysicalView {
    PhysicalView {
        pressed: Seq::empty(),
        active: None,
        shift: false,
        caps: false,
        ctrl: false,
        alt: false,
        num: false,
    }
}

/// The state after a key event: `key_id` is the on-screen key with that
/// keycode, if there is one. Shift (42, 54), Ctrl (29, 97) and Alt (56,
/// 100) follow the key; Caps Lock (58) and Num Lock (69) flip on each press.
pub open spec fn spec_key_event(
    v: PhysicalView,
    key_id: Option<usize>,
    keycode: u32,
    pressed: bool,
) -> PhysicalView {
    let v1 = match key_id {
        Some(id) => if pressed {
            spec_mark_pressed(v, id)
        } else {
            spec_mark_released(v, id)
        },
        None => v,
    };
    if keycode == 42 || keycode == 54 {
        PhysicalView { shift: pressed, ..v1 }
    } else if keycode == 29 || keycode == 97 {
        PhysicalView { ctrl: pressed, ..v1 }
    } else if keycode == 56 || keycode == 100 {
        PhysicalView { alt: pressed, ..v1 }
    } else if keycode == 58 && pressed {
        PhysicalView { caps: !v1.caps, ..v1 }
    } else if keycode == 69 && pressed {
        PhysicalView { num: !v1.num, ..v1 }
    } else {
        v1
    }
}

/// The state after the compositor reported the modifier masks: Shift,
/// Ctrl and Alt are bits 0x01, 0x04 and 0x08 of the depressed or latched
/// mask; Caps Lock and Num Lock are bits 0x02 and 0x10 of the locked mask.
pub open spec fn spec_modifiers_event(
    v: PhysicalView,
    depressed: u32,
    latched: u32,
    locked: u32,
) -> PhysicalView {
    let down = depressed | latched;
    PhysicalView {
        shift: down & 0x01 != 0,
        ctrl: down & 0x04 != 0,
        alt: down & 0x08 != 0,
        caps: locked & 0x02 != 0,
        num: locked & 0x10 != 0,
        ..v
    }
}

/// The held keys of the physical keyboard and the one to highlight.
struct HeldKeys {
    pressed: Vec<usize>,
    active: Option<usize>,
}

impl HeldKeys {
    #[verifier::type_invariant]
    spec fn inv(self) -> bool {
        &&& self.pressed@.no_duplicates()
        &&& (self.active is None <==> self.pressed@.len() == 0)
        &&& (self.active matches Some(a) ==> self.pressed@.contains(a))
    }
}

/// The modifier mask that the virtual keyboard sends for a key is read
/// back, when the compositor reports it as the depressed mask, as the same
/// Shift, Ctrl and Alt; the locks are left to the locked mask.
pub proof fn sent_modifiers_read_back(v: PhysicalView, shift: bool, ctrl: bool, alt: bool, locked: u32)
    ensures
        spec_modifiers_event(v, spec_modifier_mask(shift, ctrl, alt), 0, locked).shift == shift,
        spec_modifiers_event(v, spec_modifier_mask(shift, ctrl, alt), 0, locked).ctrl == ctrl,
        spec_modifiers_event(v, spec_modifier_mask(shift, ctrl, alt), 0, locked).alt == alt,
        spec_modifiers_event(v, spec_modifier_mask(shift, ctrl, alt), 0, locked).pressed == v.pressed,
        spec_modifiers_event(v, spec_modifier_mask(shift, ctrl, alt), 0, locked).active == v.active,
{
    let m = spec_modifier_mask(shift, ctrl, alt);
    assert(m | 0 == m) by (bit_vector);
    modifier_mask_decodes(shift, ctrl, alt);
}

/// Releasing a key never changes Caps Lock or Num Lock; pressing Caps Lock
/// (58) flips Caps Lock once and pressing Num Lock (69) flips Num Lock once;
/// Shift (42, 54), Ctrl (29, 97) and Alt (56, 100) are on exactly while
/// their key is down; any other key leaves every modifier and lock as it
/// was.
pub proof fn locks_flip_on_press_only(v: PhysicalView, key_id: Option<usize>, keycode: u32, pressed: bool)
    ensures
        spec_key_event(v, key_id, keycode, false).caps == v.caps,
        spec_key_event(v, key_id, keycode, false).num == v.num,
        spec_key_event(v, key_id, 58, true).caps == !v.caps,
        spec_key_event(v, key_id, 58, true).num == v.num,
        spec_key_event(v, key_id, 69, true).num == !v.num,
        spec_key_event(v, key_id, 69, true).caps == v.caps,
        (keycode == 42 || keycode == 54) ==> spec_key_event(v, key_id, keycode, pressed).shift
            == pressed,
        (keycode == 29 || keycode == 97) ==> spec_key_event(v, key_id, keycode, pressed).ctrl
            == pressed,
        (keycode == 56 || keycode == 100) ==> spec_key_event(v, key_id, keycode, pressed).alt
            == pressed,
        !(keycode == 42 || keycode == 54 || keycode == 29 || keycode == 97 || keycode == 56
            || keycode == 100 || keycode == 58 || keycode == 69) ==> {
            let w = spec_key_event(v, key_id, keycode, pressed);
            &&& w.shift == v.shift && w.ctrl == v.ctrl && w.alt == v.alt
            &&& w.caps == v.caps && w.num == v.num
        },
{
}

/// The keys and modifiers of the physical keyboard.
pub struct PhysicalKeyboard {
    keys: HeldKeys,
    shift: bool,
    caps: bool,
    ctrl: bool,
    alt: bool,
    num: bool,
}

impl View for PhysicalKeyboard {
    type V = PhysicalView;

    closed spec fn view(&self) -> PhysicalView {
        PhysicalView {
            pressed: self.keys.pressed@,
            active: self.keys.active,
            shift: self.shift,
            caps: self.caps,
            ctrl: self.ctrl,
            alt: self.alt,
            num: self.num,
        }
    }
}

proof fn lemma_without_facts(s: Seq<usize>, x: usize)
    ensures
        !without(s, x).contains(x),
        forall|y: usize| y != x ==> (without(s, x).contains(y) <==> s.contains(y)),
        s.no_duplicates() ==> without(s, x).no_duplicates(),
        !s.contains(x) ==> without(s, x) == s,
        without(s, x).len() <= s.len(),
    decreases s.len(),
{
    if s.len() > 0 {
        let p = s.drop_last();
        lemma_without_facts(p, x);
        let w = without(p, x);
        assert forall|y: usize| p.contains(y) implies s.contains(y) by {
            let i = choose|i: int| 0 <= i < p.len() && p[i] == y;
            assert(s[i] == y);
        }
        assert forall|y: usize| s.contains(y) && y != s.last() implies p.contains(y) by {
            let i = choose|i: int| 0 <= i < s.len() && s[i] == y;
            assert(p[i] == y);
        }
        assert(s.contains(s.last())) by {
            assert(s[s.len() - 1] == s.last());
        }
        if s.last() != x {
            let r = w.push(s.last());
            assert forall|y: usize| r.contains(y) && y != s.last() implies w.contains(y) by {
                let i = choose|i: int| 0 <= i < r.len() && r[i] == y;
                assert(w[i] == y);
            }
            assert forall|y: usize| w.contains(y) implies r.contains(y) by {
                let i = choose|i: int| 0 <= i < w.len() && w[i] == y;
                assert(r[i] == y);
            }
            assert(r[r.len() - 1] == s.last());
            if s.no_duplicates() {
                assert(p.no_duplicates()) by {
                    assert forall|i: int, j: int|
                        0 <= i < p.len() && 0 <= j < p.len() && i != j implies p[i] != p[j] by {
                        assert(p[i] == s[i] && p[j] == s[j]);
                    }
                }
                assert(!p.contains(s.last())) by {
                    if p.contains(s.last()) {
                        let i = choose|i: int| 0 <= i < p.len() && p[i] == s.last();
                        assert(s[i] == s[s.len() - 1]);
                    }
                }
                assert(!w.contains(s.last()));
                assert forall|i: int, j: int|
                    0 <= i < r.len() && 0 <= j < r.len() && i != j implies r[i] != r[j] by {
                    if i < w.len() && j < w.len() {
                        assert(r[i] == w[i] && r[j] == w[j]);
                    } else if i < w.len() {
                        assert(r[i] == w[i]);
                        assert(w.contains(w[i]));
                    } else if j < w.len() {
                        assert(r[j] == w[j]);
                        assert(w.contains(w[j]));
                    }
                }
            }
            if !s.contains(x) {
                assert(!p.contains(x));
                assert(w == p);
                assert(r =~= s);
            }
        } else {
            if s.no_duplicates() {
                assert(p.no_duplicates()) by {
                    assert forall|i: int, j: int|
                        0 <= i < p.len() && 0 <= j < p.len() && i != j implies p[i] != p[j] by {
                        assert(p[i] == s[i] && p[j] == s[j]);
                    }
                }
            }
        }
    }
}

/// Taking out a key that was just added gives back the keys before it:
/// a key that goes down and comes up leaves the held keys as they were.
pub proof fn release_undoes_press(v: PhysicalView, id: usize)
    requires
        !v.pressed.contains(id),
    ensures
        spec_mark_released(spec_mark_pressed(v, id), id).pressed == v.pressed,
{
    let p = v.pressed.push(id);
    assert(p.drop_last() =~= v.pressed);
    lemma_without_facts(v.pressed, id);
}

/// Every change of the physical keyboard's state keeps it well formed.
pub proof fn physical_changes_keep_wf(
    v: PhysicalView,
    id: usize,
    key_id: Option<usize>,
    keycode: u32,
    pressed: bool,
    depressed: u32,
    latched: u32,
    locked: u32,
)
    requires
        v.wf(),
    ensures
        spec_mark_pressed(v, id).wf(),
        spec_mark_released(v, id).wf(),
        spec_cleared().wf(),
        spec_key_event(v, key_id, keycode, pressed).wf(),
        spec_modifiers_event(v, depressed, latched, locked).wf(),
        spec_mark_pressed(v, id).pressed.contains(id),
        !spec_mark_released(v, id).pressed.contains(id),
{
    lemma_pressed_wf(v, id);
    lemma_released_wf(v, id);
    if let Some(k) = key_id {
        lemma_pressed_wf(v, k);
        lemma_released_wf(v, k);
    }
}

proof fn lemma_pressed_wf(v: PhysicalView, id: usize)
    requires
        v.wf(),
    ensures
        spec_mark_pressed(v, id).wf(),
        spec_mark_pressed(v, id).pressed.contains(id),
{
    let r = spec_mark_pressed(v, id);
    if !v.pressed.contains(id) {
        let p = v.pressed.push(id);
        assert(p[p.len() - 1] == id);
        assert forall|i: int, j: int| 0 <= i < p.len() && 0 <= j < p.len() && i != j implies p[i]
            != p[j] by {
            if i < v.pressed.len() && j < v.pressed.len() {
            } else if i < v.pressed.len() {
                assert(v.pressed.contains(p[i]));
            } else {
                assert(v.pressed.contains(p[j]));
            }
        }
    }
}

proof fn lemma_released_wf(v: PhysicalView, id: usize)
    requires
        v.wf(),
    ensures
        spec_mark_released(v, id).wf(),
        !spec_mark_released(v, id).pressed.contains(id),
{
    lemma_without_facts(v.pressed, id);
    let rest = without(v.pressed, id);
    if rest.len() > 0 {
        assert(rest.contains(rest.last())) by {
            assert(rest[rest.len() - 1] == rest.last());
        }
    }
    if let Some(a) = v.active {
        if a != id {
            assert(rest.contains(a));
            assert(rest.len() > 0) by {
                let i = choose|i: int| 0 <= i < rest.len() && rest[i] == a;
            }
        }
    }
}

impl PhysicalKeyboard {
    /// A keyboard with nothing held and no modifier on.
    pub fn new() -> (k: PhysicalKeyboard)
        ensures
            k@ == spec_cleared(),
            k@.wf(),
    {
        PhysicalKeyboard {
            keys: HeldKeys { pressed: Vec::new(), active: None },
            shift: false,
            caps: false,
            ctrl: false,
            alt: false,
            num: false,
        }
    }

    /// The ids of the held keys, in the order in which they went down.
    pub fn pressed_key_ids(&self) -> (ids: &Vec<usize>)
        ensures
            ids@ == self@.pressed,
    {
        &self.keys.pressed
    }

    /// The key to highlight as the one being typed.
    pub fn active_key_id(&self) -> (a: Option<usize>)
        ensures
            a == self@.active,
    {
        self.keys.active
    }

    /// Whether Shift is down.
    pub fn shift(&self) -> (b: bool)
        ensures
            b == self@.shift,
    {
        self.shift
    }

    /// Whether Caps Lock is on.
    pub fn caps(&self) -> (b: bool)
        ensures
            b == self@.caps,
    {
        self.caps
    }

    /// Whether Ctrl is down.
    pub fn ctrl(&self) -> (b: bool)
        ensures
            b == self@.ctrl,
    {
        self.ctrl
    }

    /// Whether Alt is down.
    pub fn alt(&self) -> (b: bool)
        ensures
            b == self@.alt,
    {
        self.alt
    }

    /// Whether Num Lock is on.
    pub fn num(&self) -> (b: bool)
        ensures
            b == self@.num,
    {
        self.num
    }

    /// Records that key `key_id` went down.
    pub fn mark_pressed(&mut self, key_id: usize)
        ensures
            final(self)@ == spec_mark_pressed(old(self)@, key_id),
            final(self)@.wf(),
    {
        proof {
            use_type_invariant(&self.keys);
            lemma_pressed_wf(self@, key_id);
        }
        let mut found = false;
        let mut held: Vec<usize> = Vec::new();
        let mut i: usize = 0;
        while i < self.keys.pressed.len()
            invariant
                i <= self.keys.pressed@.len(),
                held@ == self.keys.pressed@.take(i as int),
                found == exists|j: int| 0 <= j < i && self.keys.pressed@[j] == key_id,
            decreases self.keys.pressed@.len() - i,
        {
            if self.keys.pressed[i] == key_id {
                found = true;
            }
            held.push(self.keys.pressed[i]);
            assert(held@ =~= self.keys.pressed@.take(i + 1));
            i = i + 1;
        }
        assert(held@ =~= self.keys.pressed@);
        assert(found == self.keys.pressed@.contains(key_id));
        let ghost target = spec_mark_pressed(self@, key_id);
        if !found {
            held.push(key_id);
        }
        self.keys = HeldKeys { pressed: held, active: Some(key_id) };
        assert(self@ == target);
        proof {
            use_type_invariant(&self.keys);
        }
    }

    /// Records that key `key_id` came up.
    pub fn mark_released(&mut self, key_id: usize)
        ensures
            final(self)@ == spec_mark_released(old(self)@, key_id),
            final(self)@.wf(),
    {
        proof {
            use_type_invariant(&self.keys);
            lemma_released_wf(self@, key_id);
        }
        let ghost target = spec_mark_released(self@, key_id);
        let mut rest: Vec<usize> = Vec::new();
        let mut i: usize = 0;
        while i < self.keys.pressed.len()
            invariant
                i <= self.keys.pressed@.len(),
                rest@ == without(self.keys.pressed@.take(i as int), key_id),
            decreases self.keys.pressed@.len() - i,
        {
            assert(self.keys.pressed@.take(i + 1).drop_last() =~= self.keys.pressed@.take(i as int));
            if self.keys.pressed[i] != key_id {
                rest.push(self.keys.pressed[i]);
            }
            i = i + 1;
        }
        assert(self.keys.pressed@.take(i as int) =~= self.keys.pressed@);
        let new_active = if self.keys.active == Some(key_id) {
            if rest.len() == 0 {
                None
            } else {
                Some(rest[rest.len() - 1])
            }
        } else {
            self.keys.active
        };
        self.keys = HeldKeys { pressed: rest, active: new_active };
        assert(self@ == target);
        proof {
            use_type_invariant(&self.keys);
        }
    }

    /// Forgets every held key and turns every modifier and lock off.
    pub fn clear(&mut self)
        ensures
            final(self)@ == spec_cleared(),
            final(self)@.wf(),
    {
        *self = PhysicalKeyboard::new();
    }

    /// Records a key event of the physical keyboard. `key_id` is the
    /// on-screen key with the event's keycode, where there is one.
    pub fn key_event(&mut self, key_id: Option<usize>, keycode: u32, pressed: bool)
        ensures
            final(self)@ == spec_key_event(old(self)@, key_id, keycode, pressed),
            final(self)@.wf(),
    {
        match key_id {
            Some(id) => {
                if pressed {
                    self.mark_pressed(id);
                } else {
                    self.mark_released(id);
                }
            },
            None => {},
        }
        if keycode == 42 || keycode == 54 {
            self.shift = pressed;
        } else if keycode == 29 || keycode == 97 {
            self.ctrl = pressed;
        } else if keycode == 56 || keycode == 100 {
            self.alt = pressed;
        } else if keycode == 58 && pressed {
            self.caps = !self.caps;
        } else if keycode == 69 && pressed {
            self.num = !self.num;
        }
        proof {
            use_type_invariant(&self.keys);
        }
    }

    /// Records the modifier masks that the compositor reported.
    pub fn modifiers_event(&mut self, depressed: u32, latched: u32, locked: u32)
        ensures
            final(self)@ == spec_modifiers_event(old(self)@, depressed, latched, locked),
            final(self)@.wf(),
    {
        let down = depressed | latched;
        self.shift = down & 0x01 != 0;
        self.ctrl = down & 0x04 != 0;
        self.alt = down & 0x08 != 0;
        self.caps = locked & 0x02 != 0;
        self.num = locked & 0x10 != 0;
        proof {
            use_type_invariant(&self.keys);
        }
    }
}

} // verus!
