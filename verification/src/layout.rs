//! Key definitions and the discrete part of the keyboard layout.
use vstd::prelude::*;

verus! {

/// Height of the draggable bar at the top of the keyboard, in pixels.
pub const DRAG_BAR_HEIGHT: u32 = 32;

/// Height of the suggestion strip below the drag bar, in pixels.
pub const SUGGESTION_STRIP_HEIGHT: u32 = 38;

/// Width of the expanded sidebar, in pixels.
pub const SIDEBAR_WIDTH: u32 = 260;

/// Gap between the main keyboard and the sidebar, in pixels.
pub const SIDEBAR_GAP: u32 = 8;

/// What pressing a key does.
#[derive(Clone, Copy, PartialEq, Eq, Debug, Structural)]
pub enum KeyAction {
    Key,
    Shift,
    Caps,
    Ctrl,
    Alt,
    NumLock,
    ToggleSidebar,
}

/// The horizontal distance, in pixels, by which the sidebar pushes past
/// the main keyboard: its width plus the gap before it.
pub fn sidebar_delta() -> (d: u32)
    ensures
        d == SIDEBAR_WIDTH + SIDEBAR_GAP,
        d == 268,
{
    SIDEBAR_WIDTH + SIDEBAR_GAP
}

/// Whether a Linux keycode is one of the letter keys (the `q`..`p`,
/// `a`..`l` and `z`..`m` runs of a US keyboard), whose case Caps Lock flips.
pub open spec fn spec_is_alpha_key(keycode: u32) -> bool {
    ||| 16 <= keycode <= 25
    ||| 30 <= keycode <= 38
    ||| 44 <= keycode <= 50
}

/// Whether `keycode` is a letter key; see [`spec_is_alpha_key`].
pub fn is_alpha_key(keycode: u32) -> (b: bool)
    ensures
        b == spec_is_alpha_key(keycode),
{
    (16 <= keycode && keycode <= 25) || (30 <= keycode && keycode <= 38) || (44 <= keycode
        && keycode <= 50)
}

/// One key of the on-screen keyboard.
///
/// `width_mul` is the key's width in hundredths of a standard key: a
/// standard key has `width_mul == 100`, the space bar `645`.
#[derive(Clone, Copy, PartialEq, Eq, Debug)]
pub struct KeyDef {
    pub label_lower: &'static str,
    pub label_upper: &'static str,
    pub linux_keycode: Option<u32>,
    pub width_mul: u32,
    pub action: KeyAction,
}

/// The key that [`key`] builds.
pub open spec fn spec_key(lo: &'static str, hi: &'static str, code: u32) -> KeyDef {
    KeyDef { label_lower: lo, label_upper: hi, linux_keycode: Some(code), width_mul: 100, action: KeyAction::Key }
}

/// The key that [`wide`] builds.
pub open spec fn spec_wide(lo: &'static str, hi: &'static str, code: u32, mul: u32) -> KeyDef {
    KeyDef { label_lower: lo, label_upper: hi, linux_keycode: Some(code), width_mul: mul, action: KeyAction::Key }
}

/// The key that [`shift_key`] builds.
pub open spec fn spec_shift_key(code: u32, mul: u32) -> KeyDef {
    KeyDef { label_lower: "Shift", label_upper: "Shift", linux_keycode: Some(code), width_mul: mul, action: KeyAction::Shift }
}

/// The key that [`caps_key`] builds.
pub open spec fn spec_caps_key(mul: u32) -> KeyDef {
    KeyDef { label_lower: "Caps", label_upper: "Caps", linux_keycode: Some(58), width_mul: mul, action: KeyAction::Caps }
}

/// The key that [`ctrl_key`] builds.
pub open spec fn spec_ctrl_key(code: u32, mul: u32) -> KeyDef {
    KeyDef { label_lower: "Ctrl", label_upper: "Ctrl", linux_keycode: Some(code), width_mul: mul, action: KeyAction::Ctrl }
}

/// The key that [`alt_key`] builds.
pub open spec fn spec_alt_key(code: u32, mul: u32) -> KeyDef {
    KeyDef { label_lower: "Alt", label_upper: "Alt", linux_keycode: Some(code), width_mul: mul, action: KeyAction::Alt }
}

/// The key that [`action_key`] builds.
pub open spec fn spec_action_key(label: &'static str, action: KeyAction, mul: u32) -> KeyDef {
    KeyDef { label_lower: label, label_upper: label, linux_keycode: None, width_mul: mul, action }
}

/// A standard-width key that types `code`, labelled `lo` and, shifted, `hi`.
pub fn key(lo: &'static str, hi: &'static str, code: u32) -> (k: KeyDef)
    ensures
        k == spec_key(lo, hi, code),
{
    KeyDef { label_lower: lo, label_upper: hi, linux_keycode: Some(code), width_mul: 100, action: KeyAction::Key }
}

/// A key that types `code` and is `mul` hundredths of a standard key wide.
pub fn wide(lo: &'static str, hi: &'static str, code: u32, mul: u32) -> (k: KeyDef)
    ensures
        k == spec_wide(lo, hi, code, mul),
{
    KeyDef { label_lower: lo, label_upper: hi, linux_keycode: Some(code), width_mul: mul, action: KeyAction::Key }
}

/// A Shift key with keycode `code`.
pub fn shift_key(code: u32, mul: u32) -> (k: KeyDef)
    ensures
        k == spec_shift_key(code, mul),
{
    KeyDef { label_lower: "Shift", label_upper: "Shift", linux_keycode: Some(code), width_mul: mul, action: KeyAction::Shift }
}

/// The Caps Lock key (keycode 58).
pub fn caps_key(mul: u32) -> (k: KeyDef)
    ensures
        k == spec_caps_key(mul),
{
    KeyDef { label_lower: "Caps", label_upper: "Caps", linux_keycode: Some(58), width_mul: mul, action: KeyAction::Caps }
}

/// A Ctrl key with keycode `code`.
pub fn ctrl_key(code: u32, mul: u32) -> (k: KeyDef)
    ensures
        k == spec_ctrl_key(code, mul),
{
    KeyDef { label_lower: "Ctrl", label_upper: "Ctrl", linux_keycode: Some(code), width_mul: mul, action: KeyAction::Ctrl }
}

/// An Alt key with keycode `code`.
pub fn alt_key(code: u32, mul: u32) -> (k: KeyDef)
    ensures
        k == spec_alt_key(code, mul),
{
    KeyDef { label_lower: "Alt", label_upper: "Alt", linux_keycode: Some(code), width_mul: mul, action: KeyAction::Alt }
}

/// A key that types nothing and only triggers `action`.
pub fn action_key(label: &'static str, action: KeyAction, mul: u32) -> (k: KeyDef)
    ensures
        k == spec_action_key(label, action, mul),
{
    KeyDef { label_lower: label, label_upper: label, linux_keycode: None, width_mul: mul, action }
}

/// The label of the sidebar toggle: `<<` collapses an open sidebar, `>>`
/// opens a closed one.
pub open spec fn toggle_label(sidebar_expanded: bool) -> &'static str {
    if sidebar_expanded { "<<" } else { ">>" }
}

/// The six rows of the main keyboard, top to bottom.
pub open spec fn spec_main_rows(sidebar_expanded: bool) -> Seq<Seq<KeyDef>> {
    seq![
        seq![
            spec_wide("Esc", "Esc", 1, 100),
            spec_key("F1", "F1", 59),
            spec_key("F2", "F2", 60),
            spec_key("F3", "F3", 61),
            spec_key("F4", "F4", 62),
            spec_key("F5", "F5", 63),
            spec_key("F6", "F6", 64),
            spec_key("F7", "F7", 65),
            spec_key("F8", "F8", 66),
            spec_key("F9", "F9", 67),
            spec_key("F10", "F10", 68),
            spec_key("F11", "F11", 87),
            spec_key("F12", "F12", 88),
        ],
        seq![
            spec_key("`", "~", 41),
            spec_key("1", "!", 2),
            spec_key("2", "@", 3),
            spec_key("3", "#", 4),
            spec_key("4", "$", 5),
            spec_key("5", "%", 6),
            spec_key("6", "^", 7),
            spec_key("7", "&", 8),
            spec_key("8", "*", 9),
            spec_key("9", "(", 10),
            spec_key("0", ")", 11),
            spec_key("-", "_", 12),
            spec_key("=", "+", 13),
            spec_wide("Bksp", "Bksp", 14, 165),
        ],
        seq![
            spec_wide("Tab", "Tab", 15, 145),
            spec_key("q", "Q", 16),
            spec_key("w", "W", 17),
            spec_key("e", "E", 18),
            spec_key("r", "R", 19),
            spec_key("t", "T", 20),
            spec_key("y", "Y", 21),
            spec_key("u", "U", 22),
            spec_key("i", "I", 23),
            spec_key("o", "O", 24),
            spec_key("p", "P", 25),
            spec_key("[", "{", 26),
            spec_key("]", "}", 27),
            spec_wide("\\", "|", 43, 125),
            spec_wide("Del", "Del", 111, 115),
        ],
        seq![
            spec_caps_key(175),
            spec_key("a", "A", 30),
            spec_key("s", "S", 31),
            spec_key("d", "D", 32),
            spec_key("f", "F", 33),
            spec_key("g", "G", 34),
            spec_key("h", "H", 35),
            spec_key("j", "J", 36),
            spec_key("k", "K", 37),
            spec_key("l", "L", 38),
            spec_key(";", ":", 39),
            spec_key("'", "\"", 40),
            spec_wide("Enter", "Enter", 28, 245),
        ],
        seq![
            spec_shift_key(42, 225),
            spec_key("z", "Z", 44),
            spec_key("x", "X", 45),
            spec_key("c", "C", 46),
            spec_key("v", "V", 47),
            spec_key("b", "B", 48),
            spec_key("n", "N", 49),
            spec_key("m", "M", 50),
            spec_key(",", "<", 51),
            spec_key(".", ">", 52),
            spec_key("/", "?", 53),
            spec_wide("↑", "↑", 103, 100),
            spec_shift_key(54, 200),
        ],
        seq![
            spec_ctrl_key(29, 105),
            spec_wide("Super", "Super", 125, 115),
            spec_alt_key(56, 105),
            spec_wide("", "", 57, 645),
            spec_alt_key(100, 105),
            spec_ctrl_key(97, 105),
            spec_wide("←", "←", 105, 100),
            spec_wide("↓", "↓", 108, 100),
            spec_wide("→", "→", 106, 100),
            spec_action_key(toggle_label(sidebar_expanded), KeyAction::ToggleSidebar, 115),
        ],
    ]
}

/// The four rows of the sidebar (navigation and utility keys).
pub open spec fn spec_sidebar_rows() -> Seq<Seq<KeyDef>> {
    seq![
        seq![
            spec_key("Home", "Home", 102),
            spec_key("PgUp", "PgUp", 104),
            spec_action_key("Num", KeyAction::NumLock, 100),
        ],
        seq![
            spec_key("End", "End", 107),
            spec_key("PgDn", "PgDn", 109),
            spec_key("Ins", "Ins", 110),
        ],
        seq![
            spec_key("PrtSc", "PrtSc", 99),
            spec_key("Pause", "Pause", 119),
            spec_key("Del", "Del", 111),
        ],
        seq![
            spec_key("ScrLk", "ScrLk", 70),
            spec_key("Menu", "Menu", 127),
            spec_key("Help", "Help", 138),
        ],
    ]
}

/// The contents of a vector of rows, row by row.
pub open spec fn rows_view(rows: Seq<Vec<KeyDef>>) -> Seq<Seq<KeyDef>> {
    rows.map_values(|r: Vec<KeyDef>| r@)
}

/// The rows of the main keyboard. The last key toggles the sidebar and is
/// labelled after what it will do.
pub fn main_rows(sidebar_expanded: bool) -> (rows: Vec<Vec<KeyDef>>)
    ensures
        rows_view(rows@) == spec_main_rows(sidebar_expanded),
{
    let rows = vec![
        vec![
            wide("Esc", "Esc", 1, 100),
            key("F1", "F1", 59),
            key("F2", "F2", 60),
            key("F3", "F3", 61),
            key("F4", "F4", 62),
            key("F5", "F5", 63),
            key("F6", "F6", 64),
            key("F7", "F7", 65),
            key("F8", "F8", 66),
            key("F9", "F9", 67),
            key("F10", "F10", 68),
            key("F11", "F11", 87),
            key("F12", "F12", 88),
        ],
        vec![
            key("`", "~", 41),
            key("1", "!", 2),
            key("2", "@", 3),
            key("3", "#", 4),
            key("4", "$", 5),
            key("5", "%", 6),
            key("6", "^", 7),
            key("7", "&", 8),
            key("8", "*", 9),
            key("9", "(", 10),
            key("0", ")", 11),
            key("-", "_", 12),
            key("=", "+", 13),
            wide("Bksp", "Bksp", 14, 165),
        ],
        vec![
            wide("Tab", "Tab", 15, 145),
            key("q", "Q", 16),
            key("w", "W", 17),
            key("e", "E", 18),
            key("r", "R", 19),
            key("t", "T", 20),
            key("y", "Y", 21),
            key("u", "U", 22),
            key("i", "I", 23),
            key("o", "O", 24),
            key("p", "P", 25),
            key("[", "{", 26),
            key("]", "}", 27),
            wide("\\", "|", 43, 125),
            wide("Del", "Del", 111, 115),
        ],
        vec![
            caps_key(175),
            key("a", "A", 30),
            key("s", "S", 31),
            key("d", "D", 32),
            key("f", "F", 33),
            key("g", "G", 34),
            key("h", "H", 35),
            key("j", "J", 36),
            key("k", "K", 37),
            key("l", "L", 38),
            key(";", ":", 39),
            key("'", "\"", 40),
            wide("Enter", "Enter", 28, 245),
        ],
        vec![
            shift_key(42, 225),
            key("z", "Z", 44),
            key("x", "X", 45),
            key("c", "C", 46),
            key("v", "V", 47),
            key("b", "B", 48),
            key("n", "N", 49),
            key("m", "M", 50),
            key(",", "<", 51),
            key(".", ">", 52),
            key("/", "?", 53),
            wide("↑", "↑", 103, 100),
            shift_key(54, 200),
        ],
        vec![
            ctrl_key(29, 105),
            wide("Super", "Super", 125, 115),
            alt_key(56, 105),
            wide("", "", 57, 645),
            alt_key(100, 105),
            ctrl_key(97, 105),
            wide("←", "←", 105, 100),
            wide("↓", "↓", 108, 100),
            wide("→", "→", 106, 100),
            action_key(if sidebar_expanded { "<<" } else { ">>" }, KeyAction::ToggleSidebar, 115),
        ],
    ];
    assert(rows_view(rows@) =~= spec_main_rows(sidebar_expanded));
    rows
}

/// The rows of the sidebar.
pub fn sidebar_rows() -> (rows: Vec<Vec<KeyDef>>)
    ensures
        rows_view(rows@) == spec_sidebar_rows(),
{
    let rows = vec![
        vec![
            key("Home", "Home", 102),
            key("PgUp", "PgUp", 104),
            action_key("Num", KeyAction::NumLock, 100),
        ],
        vec![
            key("End", "End", 107),
            key("PgDn", "PgDn", 109),
            key("Ins", "Ins", 110),
        ],
        vec![
            key("PrtSc", "PrtSc", 99),
            key("Pause", "Pause", 119),
            key("Del", "Del", 111),
        ],
        vec![
            key("ScrLk", "ScrLk", 70),
            key("Menu", "Menu", 127),
            key("Help", "Help", 138),
        ],
    ];
    assert(rows_view(rows@) =~= spec_sidebar_rows());
    rows
}

/// A key of the layout, numbered and placed: `id` numbers the keys from
/// the top-left key of the main keyboard onwards, row by row, and then the
/// sidebar's keys; `row` and `col` give the key's place in its rows.
#[derive(Clone, Copy, PartialEq, Eq, Debug)]
pub struct KeySlot {
    pub id: usize,
    pub def: KeyDef,
    pub row: usize,
    pub col: usize,
    pub in_sidebar: bool,
}

/// The number of keys in the first `n` of `rows`.
pub open spec fn keys_before(rows: Seq<Seq<KeyDef>>, n: int) -> nat
    decreases n,
{
    if n <= 0 {
        0
    } else {
        keys_before(rows, n - 1) + rows[n - 1].len()
    }
}

/// The slots of one row: row number `r`, whose first key gets `first_id`.
pub open spec fn spec_row_slots(row: Seq<KeyDef>, r: int, first_id: int, in_sidebar: bool) -> Seq<KeySlot> {
    Seq::new(
        row.len(),
        |c: int|
            KeySlot {
                id: (first_id + c) as usize,
                def: row[c],
                row: r as usize,
                col: c as usize,
                in_sidebar,
            },
    )
}

/// The slots of the first `n` of `rows`, numbered from `first_id` on.
pub open spec fn spec_slots(rows: Seq<Seq<KeyDef>>, n: int, first_id: int, in_sidebar: bool) -> Seq<KeySlot>
    decreases n,
{
    if n <= 0 {
        Seq::empty()
    } else {
        spec_slots(rows, n - 1, first_id, in_sidebar) + spec_row_slots(
            rows[n - 1],
            n - 1,
            first_id + keys_before(rows, n - 1),
            in_sidebar,
        )
    }
}

/// The slots of the main keyboard, numbered from 0.
pub open spec fn spec_main_slots(sidebar_expanded: bool) -> Seq<KeySlot> {
    spec_slots(spec_main_rows(sidebar_expanded), 6, 0, false)
}

/// The slots of the sidebar, numbered from `first_id`.
pub open spec fn spec_sidebar_slots(first_id: int) -> Seq<KeySlot> {
    spec_slots(spec_sidebar_rows(), 4, first_id, true)
}

/// The whole layout: the main keyboard's slots and, when the sidebar is
/// expanded, the sidebar's slots numbered on after them.
pub open spec fn spec_layout_slots(sidebar_expanded: bool) -> Seq<KeySlot> {
    let main = spec_main_slots(sidebar_expanded);
    if sidebar_expanded {
        main + spec_sidebar_slots(main.len() as int)
    } else {
        main
    }
}

proof fn lemma_keys_before_monotone(rows: Seq<Seq<KeyDef>>, m: int, n: int)
    requires
        m <= n,
    ensures
        keys_before(rows, m) <= keys_before(rows, n),
    decreases n - m,
{
    if m < n {
        lemma_keys_before_monotone(rows, m, n - 1);
    }
}

proof fn lemma_slots_len(rows: Seq<Seq<KeyDef>>, n: int, first_id: int, in_sidebar: bool)
    ensures
        spec_slots(rows, n, first_id, in_sidebar).len() == keys_before(rows, n),
    decreases n,
{
    if n > 0 {
        lemma_slots_len(rows, n - 1, first_id, in_sidebar);
    }
}

/// The slots of all of `rows`, numbered from `first_id` on.
fn slots_of_rows(rows: &Vec<Vec<KeyDef>>, first_id: usize, in_sidebar: bool) -> (out: Vec<KeySlot>)
    requires
        first_id + keys_before(rows_view(rows@), rows@.len() as int) <= usize::MAX,
    ensures
        out@ == spec_slots(rows_view(rows@), rows@.len() as int, first_id as int, in_sidebar),
{
    let ghost rv = rows_view(rows@);
    let mut out: Vec<KeySlot> = Vec::new();
    let mut id: usize = first_id;
    let mut ri: usize = 0;
    while ri < rows.len()
        invariant
            ri <= rows@.len(),
            rv == rows_view(rows@),
            first_id + keys_before(rv, rows@.len() as int) <= usize::MAX,
            id == first_id + keys_before(rv, ri as int),
            out@ == spec_slots(rv, ri as int, first_id as int, in_sidebar),
        decreases rows@.len() - ri,
    {
        let row = &rows[ri];
        proof {
            lemma_keys_before_monotone(rv, ri + 1, rows@.len() as int);
        }
        let ghost before = out@;
        let mut ci: usize = 0;
        while ci < row.len()
            invariant
                ri < rows@.len(),
                rv == rows_view(rows@),
                *row == rows@[ri as int],
                ci <= row@.len(),
                first_id + keys_before(rv, ri as int + 1) <= usize::MAX,
                id == first_id + keys_before(rv, ri as int) + ci,
                out@ == before + spec_row_slots(
                    rv[ri as int],
                    ri as int,
                    first_id + keys_before(rv, ri as int),
                    in_sidebar,
                ).take(ci as int),
            decreases row@.len() - ci,
        {
            out.push(KeySlot { id, def: row[ci], row: ri, col: ci, in_sidebar });
            proof {
                assert(spec_row_slots(rv[ri as int], ri as int, first_id + keys_before(rv, ri as int), in_sidebar).take(ci + 1)
                    =~= spec_row_slots(rv[ri as int], ri as int, first_id + keys_before(rv, ri as int), in_sidebar).take(ci as int).push(
                    KeySlot { id, def: row@[ci as int], row: ri, col: ci, in_sidebar }));
            }
            id = id + 1;
            ci = ci + 1;
        }
        assert(spec_row_slots(rv[ri as int], ri as int, first_id + keys_before(rv, ri as int), in_sidebar).take(ci as int)
            =~= spec_row_slots(rv[ri as int], ri as int, first_id + keys_before(rv, ri as int), in_sidebar));
        ri = ri + 1;
    }
    out
}

/// The numbered slots of the main keyboard, from id 0 on.
pub fn main_slots(sidebar_expanded: bool) -> (slots: Vec<KeySlot>)
    ensures
        slots@ == spec_main_slots(sidebar_expanded),
{
    let rows = main_rows(sidebar_expanded);
    assert(rows@.len() == rows_view(rows@).len());
    assert(keys_before(spec_main_rows(sidebar_expanded), 6) == 78) by {
        reveal_with_fuel(keys_before, 7);
    }
    slots_of_rows(&rows, 0, false)
}

/// The numbered slots of the sidebar, from id `first_id` on.
pub fn sidebar_slots(first_id: usize) -> (slots: Vec<KeySlot>)
    requires
        first_id + 12 <= usize::MAX,
    ensures
        slots@ == spec_sidebar_slots(first_id as int),
{
    let rows = sidebar_rows();
    assert(rows@.len() == rows_view(rows@).len());
    assert(keys_before(spec_sidebar_rows(), 4) == 12) by {
        reveal_with_fuel(keys_before, 5);
    }
    slots_of_rows(&rows, first_id, true)
}

/// The keys of the whole layout in the order in which they are placed:
/// the main keyboard row by row, then, when the sidebar is expanded, the
/// sidebar's rows. Each key's `id` is its index in the result.
pub fn layout_slots(sidebar_expanded: bool) -> (slots: Vec<KeySlot>)
    ensures
        slots@ == spec_layout_slots(sidebar_expanded),
{
    let mut slots = main_slots(sidebar_expanded);
    if sidebar_expanded {
        proof {
            lemma_slots_len(spec_main_rows(sidebar_expanded), 6, 0, false);
            reveal_with_fuel(keys_before, 7);
        }
        let mut side = sidebar_slots(slots.len());
        slots.append(&mut side);
    }
    slots
}

/// The total width of a row, in hundredths of a standard key.
pub open spec fn row_units_spec(row: Seq<KeyDef>) -> int
    decreases row.len(),
{
    if row.len() == 0 {
        0
    } else {
        row_units_spec(row.drop_last()) + row.last().width_mul
    }
}

/// The total width of `row`, in hundredths of a standard key.
pub fn row_units(row: &Vec<KeyDef>) -> (total: u64)
    requires
        row@.len() <= u32::MAX,
    ensures
        total == row_units_spec(row@),
{
    let mut total: u64 = 0;
    let mut i: usize = 0;
    while i < row.len()
        invariant
            i <= row@.len(),
            row@.len() <= u32::MAX,
            total == row_units_spec(row@.take(i as int)),
            total <= i * 0xffff_ffff,
        decreases row@.len() - i,
    {
        assert(row@.take(i + 1).drop_last() =~= row@.take(i as int));
        assert(total + row@[i as int].width_mul <= (i + 1) * 0xffff_ffff) by (nonlinear_arith)
            requires
                total <= i * 0xffff_ffff,
                row@[i as int].width_mul <= 0xffff_ffff,
        ;
        assert((i + 1) * 0xffff_ffff <= 0x1_0000_0000 * 0xffff_ffff) by (nonlinear_arith)
            requires
                i + 1 <= 0x1_0000_0000,
        ;
        total = total + row[i].width_mul as u64;
        i = i + 1;
    }
    assert(row@.take(i as int) =~= row@);
    total
}

proof fn lemma_slot_ids(rows: Seq<Seq<KeyDef>>, n: int, first_id: int, in_sidebar: bool)
    requires
        0 <= first_id,
        first_id + keys_before(rows, n) <= usize::MAX,
    ensures
        forall|k: int|
            #![trigger spec_slots(rows, n, first_id, in_sidebar)[k]]
            0 <= k < spec_slots(rows, n, first_id, in_sidebar).len() ==> {
                &&& spec_slots(rows, n, first_id, in_sidebar)[k].id == first_id + k
                &&& spec_slots(rows, n, first_id, in_sidebar)[k].in_sidebar == in_sidebar
            },
    decreases n,
{
    lemma_slots_len(rows, n, first_id, in_sidebar);
    if n <= 0 {
        assert(spec_slots(rows, n, first_id, in_sidebar).len() == 0);
    } else {
        lemma_keys_before_monotone(rows, n - 1, n);
        lemma_slot_ids(rows, n - 1, first_id, in_sidebar);
        lemma_slots_len(rows, n - 1, first_id, in_sidebar);
        let all = spec_slots(rows, n, first_id, in_sidebar);
        let prev = spec_slots(rows, n - 1, first_id, in_sidebar);
        let last = spec_row_slots(rows[n - 1], n - 1, first_id + keys_before(rows, n - 1), in_sidebar);
        assert forall|k: int| #![trigger all[k]] 0 <= k < all.len() implies {
            &&& all[k].id == first_id + k
            &&& all[k].in_sidebar == in_sidebar
        } by {
            if k < prev.len() {
                assert(all[k] == prev[k]);
                assert(prev[k].id == first_id + k);
            } else {
                let j = k - prev.len();
                assert(all[k] == last[j]);
                assert(keys_before(rows, n) == keys_before(rows, n - 1) + rows[n - 1].len());
                assert(0 <= j < rows[n - 1].len());
                assert(last[j].id == (first_id + keys_before(rows, n - 1) + j) as usize);
            }
        }
    }
}

/// Every key's id is its position in the layout, the main keyboard has 78
/// keys and the sidebar 12, and a key is a sidebar key exactly when its id
/// is past the main keyboard's keys.
pub proof fn layout_ids_are_positions(sidebar_expanded: bool)
    ensures
        spec_main_slots(sidebar_expanded).len() == 78,
        forall|k: int|
            #![trigger spec_main_slots(sidebar_expanded)[k]]
            0 <= k < 78 ==> spec_main_slots(sidebar_expanded)[k].id == k,
        spec_layout_slots(sidebar_expanded).len() == if sidebar_expanded { 90int } else { 78int },
        forall|k: int|
            #![trigger spec_layout_slots(sidebar_expanded)[k]]
            0 <= k < spec_layout_slots(sidebar_expanded).len() ==> {
                &&& spec_layout_slots(sidebar_expanded)[k].id == k
                &&& spec_layout_slots(sidebar_expanded)[k].in_sidebar == (k >= 78)
            },
{
    let main = spec_main_rows(sidebar_expanded);
    let side = spec_sidebar_rows();
    assert(keys_before(main, 6) == 78) by {
        reveal_with_fuel(keys_before, 7);
    }
    assert(keys_before(side, 4) == 12) by {
        reveal_with_fuel(keys_before, 5);
    }
    lemma_slots_len(main, 6, 0, false);
    lemma_slots_len(side, 4, 78, true);
    lemma_slot_ids(main, 6, 0, false);
    lemma_slot_ids(side, 4, 78, true);
    let m = spec_main_slots(sidebar_expanded);
    let s = spec_sidebar_slots(78);
    assert(spec_layout_slots(sidebar_expanded).len() == if sidebar_expanded { 90int } else { 78int });
    assert forall|k: int|
        #![trigger spec_layout_slots(sidebar_expanded)[k]]
        0 <= k < spec_layout_slots(sidebar_expanded).len() implies {
            &&& spec_layout_slots(sidebar_expanded)[k].id == k
            &&& spec_layout_slots(sidebar_expanded)[k].in_sidebar == (k >= 78)
        } by {
            if k < 78 {
                assert(spec_layout_slots(sidebar_expanded)[k] == m[k]);
                assert(m[k].id == k);
            } else {
                assert(spec_layout_slots(sidebar_expanded)[k] == s[k - 78]);
                assert(s[k - 78].id == 78 + (k - 78));
            }
    }
}

/// The two main layouts differ only in the sidebar toggle, the last key of
/// the bottom row, whose label says what a click will do; the rows have
/// 13, 14, 15, 13, 13 and 10 keys.
pub proof fn only_the_toggle_follows_the_sidebar()
    ensures
        spec_main_rows(true).len() == 6 && spec_main_rows(false).len() == 6,
        spec_main_rows(true).take(5) == spec_main_rows(false).take(5),
        spec_main_rows(true)[5].take(9) == spec_main_rows(false)[5].take(9),
        spec_main_rows(true)[5].len() == 10 && spec_main_rows(false)[5].len() == 10,
        spec_main_rows(true)[5][9] == spec_action_key("<<", KeyAction::ToggleSidebar, 115),
        spec_main_rows(false)[5][9] == spec_action_key(">>", KeyAction::ToggleSidebar, 115),
        spec_main_rows(true)[0].len() == 13 && spec_main_rows(true)[1].len() == 14,
        spec_main_rows(true)[2].len() == 15 && spec_main_rows(true)[3].len() == 13,
        spec_main_rows(true)[4].len() == 13,
{
    assert(spec_main_rows(true).take(5) =~= spec_main_rows(false).take(5));
    assert(spec_main_rows(true)[5].take(9) =~= spec_main_rows(false)[5].take(9));
}

/// The position on the main keyboard of the key with keycode `code`; the
/// sidebar toggle, the only key without a keycode, is last.
spec fn main_position_of(code: Option<u32>) -> int {
    match code {
        None => 77,
        Some(c) => {
            if c == 1 {
                0
            } else if c == 59 {
                1
            } else if c == 60 {
                2
            } else if c == 61 {
                3
            } else if c == 62 {
                4
            } else if c == 63 {
                5
            } else if c == 64 {
                6
            } else if c == 65 {
                7
            } else if c == 66 {
                8
            } else if c == 67 {
                9
            } else if c == 68 {
                10
            } else if c == 87 {
                11
            } else if c == 88 {
                12
            } else if c == 41 {
                13
            } else if c == 2 {
                14
            } else if c == 3 {
                15
            } else if c == 4 {
                16
            } else if c == 5 {
                17
            } else if c == 6 {
                18
            } else if c == 7 {
                19
            } else if c == 8 {
                20
            } else if c == 9 {
                21
            } else if c == 10 {
                22
            } else if c == 11 {
                23
            } else if c == 12 {
                24
            } else if c == 13 {
                25
            } else if c == 14 {
                26
            } else if c == 15 {
                27
            } else if c == 16 {
                28
            } else if c == 17 {
                29
            } else if c == 18 {
                30
            } else if c == 19 {
                31
            } else if c == 20 {
                32
            } else if c == 21 {
                33
            } else if c == 22 {
                34
            } else if c == 23 {
                35
            } else if c == 24 {
                36
            } else if c == 25 {
                37
            } else if c == 26 {
                38
            } else if c == 27 {
                39
            } else if c == 43 {
                40
            } else if c == 111 {
                41
            } else if c == 58 {
                42
            } else if c == 30 {
                43
            } else if c == 31 {
                44
            } else if c == 32 {
                45
            } else if c == 33 {
                46
            } else if c == 34 {
                47
            } else if c == 35 {
                48
            } else if c == 36 {
                49
            } else if c == 37 {
                50
            } else if c == 38 {
                51
            } else if c == 39 {
                52
            } else if c == 40 {
                53
            } else if c == 28 {
                54
            } else if c == 42 {
                55
            } else if c == 44 {
                56
            } else if c == 45 {
                57
            } else if c == 46 {
                58
            } else if c == 47 {
                59
            } else if c == 48 {
                60
            } else if c == 49 {
                61
            } else if c == 50 {
                62
            } else if c == 51 {
                63
            } else if c == 52 {
                64
            } else if c == 53 {
                65
            } else if c == 103 {
                66
            } else if c == 54 {
                67
            } else if c == 29 {
                68
            } else if c == 125 {
                69
            } else if c == 56 {
                70
            } else if c == 57 {
                71
            } else if c == 100 {
                72
            } else if c == 97 {
                73
            } else if c == 105 {
                74
            } else if c == 108 {
                75
            } else if c == 106 {
                76
            } else {
                -1
            }
        },
    }
}

#[verifier::rlimit(100)]
proof fn lemma_main_positions(sidebar_expanded: bool)
    ensures
        forall|k: int|
            #![trigger spec_main_slots(sidebar_expanded)[k]]
            0 <= k < 78 ==> main_position_of(spec_main_slots(sidebar_expanded)[k].def.linux_keycode) == k,
{
    let main = spec_main_rows(sidebar_expanded);
    reveal_with_fuel(keys_before, 7);
    reveal_with_fuel(spec_slots, 7);
    lemma_slots_len(main, 6, 0, false);
}

/// Every key of the main keyboard has a keycode of its own (the sidebar
/// toggle, the only one without, included), so a keycode names at most one
/// key of the main keyboard.
pub proof fn main_keycodes_are_distinct(sidebar_expanded: bool)
    ensures
        spec_main_slots(sidebar_expanded).len() == 78,
        forall|i: int, j: int|
            0 <= i < 78 && 0 <= j < 78 && i != j ==> #[trigger] spec_main_slots(
                sidebar_expanded,
            )[i].def.linux_keycode != #[trigger] spec_main_slots(sidebar_expanded)[j].def.linux_keycode,
{
    layout_ids_are_positions(sidebar_expanded);
    lemma_main_positions(sidebar_expanded);
}

/// Every sidebar key types the key that its label names: Home 102, PgUp
/// 104, End 107, PgDn 109, Ins 110, PrtSc 99, Pause 119, Del 111, ScrLk 70,
/// Menu 127 and Help 138; Num only toggles Num Lock and types nothing. No
/// two sidebar keys type the same keycode.
pub proof fn sidebar_keys_type_their_labels()
    ensures
        spec_sidebar_rows().len() == 4,
        forall|r: int| 0 <= r < 4 ==> #[trigger] spec_sidebar_rows()[r].len() == 3,
        spec_sidebar_rows()[0][0].label_lower == "Home" && spec_sidebar_rows()[0][0].label_upper == "Home"
            && spec_sidebar_rows()[0][0].linux_keycode == Some(102u32),
        spec_sidebar_rows()[0][1].label_lower == "PgUp" && spec_sidebar_rows()[0][1].label_upper == "PgUp"
            && spec_sidebar_rows()[0][1].linux_keycode == Some(104u32),
        spec_sidebar_rows()[0][2].label_lower == "Num" && spec_sidebar_rows()[0][2].label_upper == "Num"
            && spec_sidebar_rows()[0][2].linux_keycode == None::<u32>,
        spec_sidebar_rows()[1][0].label_lower == "End" && spec_sidebar_rows()[1][0].label_upper == "End"
            && spec_sidebar_rows()[1][0].linux_keycode == Some(107u32),
        spec_sidebar_rows()[1][1].label_lower == "PgDn" && spec_sidebar_rows()[1][1].label_upper == "PgDn"
            && spec_sidebar_rows()[1][1].linux_keycode == Some(109u32),
        spec_sidebar_rows()[1][2].label_lower == "Ins" && spec_sidebar_rows()[1][2].label_upper == "Ins"
            && spec_sidebar_rows()[1][2].linux_keycode == Some(110u32),
        spec_sidebar_rows()[2][0].label_lower == "PrtSc" && spec_sidebar_rows()[2][0].label_upper == "PrtSc"
            && spec_sidebar_rows()[2][0].linux_keycode == Some(99u32),
        spec_sidebar_rows()[2][1].label_lower == "Pause" && spec_sidebar_rows()[2][1].label_upper == "Pause"
            && spec_sidebar_rows()[2][1].linux_keycode == Some(119u32),
        spec_sidebar_rows()[2][2].label_lower == "Del" && spec_sidebar_rows()[2][2].label_upper == "Del"
            && spec_sidebar_rows()[2][2].linux_keycode == Some(111u32),
        spec_sidebar_rows()[3][0].label_lower == "ScrLk" && spec_sidebar_rows()[3][0].label_upper == "ScrLk"
            && spec_sidebar_rows()[3][0].linux_keycode == Some(70u32),
        spec_sidebar_rows()[3][1].label_lower == "Menu" && spec_sidebar_rows()[3][1].label_upper == "Menu"
            && spec_sidebar_rows()[3][1].linux_keycode == Some(127u32),
        spec_sidebar_rows()[3][2].label_lower == "Help" && spec_sidebar_rows()[3][2].label_upper == "Help"
            && spec_sidebar_rows()[3][2].linux_keycode == Some(138u32),
        spec_sidebar_rows()[0][2].action == KeyAction::NumLock,
        forall|r1: int, c1: int, r2: int, c2: int|
            0 <= r1 < 4 && 0 <= c1 < 3 && 0 <= r2 < 4 && 0 <= c2 < 3 && (r1 != r2 || c1 != c2)
                ==> #[trigger] spec_sidebar_rows()[r1][c1].linux_keycode
                != #[trigger] spec_sidebar_rows()[r2][c2].linux_keycode,
{
}

/// The letter keys are the 26 keys labelled `a` to `z`: the ten keys after
/// Tab (`q` to `p`), the nine after Caps (`a` to `l`) and the seven after
/// the left Shift (`z` to `m`). Exactly these keys of the main keyboard are
/// the ones whose case Caps Lock flips.
pub proof fn letter_keys_are_the_alpha_keys(sidebar_expanded: bool)
    ensures
        spec_main_slots(sidebar_expanded)[28].def.label_lower == "q" && spec_main_slots(sidebar_expanded)[28].def.label_upper == "Q",
        spec_main_slots(sidebar_expanded)[29].def.label_lower == "w" && spec_main_slots(sidebar_expanded)[29].def.label_upper == "W",
        spec_main_slots(sidebar_expanded)[30].def.label_lower == "e" && spec_main_slots(sidebar_expanded)[30].def.label_upper == "E",
        spec_main_slots(sidebar_expanded)[31].def.label_lower == "r" && spec_main_slots(sidebar_expanded)[31].def.label_upper == "R",
        spec_main_slots(sidebar_expanded)[32].def.label_lower == "t" && spec_main_slots(sidebar_expanded)[32].def.label_upper == "T",
        spec_main_slots(sidebar_expanded)[33].def.label_lower == "y" && spec_main_slots(sidebar_expanded)[33].def.label_upper == "Y",
        spec_main_slots(sidebar_expanded)[34].def.label_lower == "u" && spec_main_slots(sidebar_expanded)[34].def.label_upper == "U",
        spec_main_slots(sidebar_expanded)[35].def.label_lower == "i" && spec_main_slots(sidebar_expanded)[35].def.label_upper == "I",
        spec_main_slots(sidebar_expanded)[36].def.label_lower == "o" && spec_main_slots(sidebar_expanded)[36].def.label_upper == "O",
        spec_main_slots(sidebar_expanded)[37].def.label_lower == "p" && spec_main_slots(sidebar_expanded)[37].def.label_upper == "P",
        spec_main_slots(sidebar_expanded)[43].def.label_lower == "a" && spec_main_slots(sidebar_expanded)[43].def.label_upper == "A",
        spec_main_slots(sidebar_expanded)[44].def.label_lower == "s" && spec_main_slots(sidebar_expanded)[44].def.label_upper == "S",
        spec_main_slots(sidebar_expanded)[45].def.label_lower == "d" && spec_main_slots(sidebar_expanded)[45].def.label_upper == "D",
        spec_main_slots(sidebar_expanded)[46].def.label_lower == "f" && spec_main_slots(sidebar_expanded)[46].def.label_upper == "F",
        spec_main_slots(sidebar_expanded)[47].def.label_lower == "g" && spec_main_slots(sidebar_expanded)[47].def.label_upper == "G",
        spec_main_slots(sidebar_expanded)[48].def.label_lower == "h" && spec_main_slots(sidebar_expanded)[48].def.label_upper == "H",
        spec_main_slots(sidebar_expanded)[49].def.label_lower == "j" && spec_main_slots(sidebar_expanded)[49].def.label_upper == "J",
        spec_main_slots(sidebar_expanded)[50].def.label_lower == "k" && spec_main_slots(sidebar_expanded)[50].def.label_upper == "K",
        spec_main_slots(sidebar_expanded)[51].def.label_lower == "l" && spec_main_slots(sidebar_expanded)[51].def.label_upper == "L",
        spec_main_slots(sidebar_expanded)[56].def.label_lower == "z" && spec_main_slots(sidebar_expanded)[56].def.label_upper == "Z",
        spec_main_slots(sidebar_expanded)[57].def.label_lower == "x" && spec_main_slots(sidebar_expanded)[57].def.label_upper == "X",
        spec_main_slots(sidebar_expanded)[58].def.label_lower == "c" && spec_main_slots(sidebar_expanded)[58].def.label_upper == "C",
        spec_main_slots(sidebar_expanded)[59].def.label_lower == "v" && spec_main_slots(sidebar_expanded)[59].def.label_upper == "V",
        spec_main_slots(sidebar_expanded)[60].def.label_lower == "b" && spec_main_slots(sidebar_expanded)[60].def.label_upper == "B",
        spec_main_slots(sidebar_expanded)[61].def.label_lower == "n" && spec_main_slots(sidebar_expanded)[61].def.label_upper == "N",
        spec_main_slots(sidebar_expanded)[62].def.label_lower == "m" && spec_main_slots(sidebar_expanded)[62].def.label_upper == "M",
        forall|k: int|
            #![trigger spec_main_slots(sidebar_expanded)[k]]
            0 <= k < 78 ==> ((spec_main_slots(sidebar_expanded)[k].def.linux_keycode matches Some(
                code,
            ) && spec_is_alpha_key(code)) <==> (28 <= k <= 37 || 43 <= k <= 51 || 56 <= k <= 62)),
{
    let main = spec_main_rows(sidebar_expanded);
    reveal_with_fuel(keys_before, 7);
    reveal_with_fuel(spec_slots, 7);
    lemma_slots_len(main, 6, 0, false);
}

} // verus!
