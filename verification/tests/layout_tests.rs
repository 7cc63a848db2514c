use typd::layout::{
    action_key, alt_key, caps_key, ctrl_key, is_alpha_key, key, layout_slots, main_rows,
    main_slots, row_units, shift_key, sidebar_delta, sidebar_rows, sidebar_slots, wide, KeyAction,
    KeyDef,
};

#[test]
fn sidebar_delta_is_width_plus_gap() {
    assert_eq!(sidebar_delta(), 268);
}

#[test]
fn alpha_keys_are_the_letter_runs() {
    for code in [16, 20, 25, 30, 35, 38, 44, 47, 50] {
        assert!(is_alpha_key(code), "{code}");
    }
    for code in [0, 1, 15, 26, 29, 39, 43, 51, 57, 111, u32::MAX] {
        assert!(!is_alpha_key(code), "{code}");
    }
}

#[test]
fn key_constructors_fill_every_field() {
    assert_eq!(
        key("q", "Q", 16),
        KeyDef { label_lower: "q", label_upper: "Q", linux_keycode: Some(16), width_mul: 100, action: KeyAction::Key }
    );
    assert_eq!(wide("Tab", "Tab", 15, 145).width_mul, 145);
    assert_eq!(wide("Tab", "Tab", 15, 145).linux_keycode, Some(15));
    let s = shift_key(42, 225);
    assert_eq!((s.label_lower, s.label_upper, s.linux_keycode, s.width_mul, s.action), ("Shift", "Shift", Some(42), 225, KeyAction::Shift));
    let c = caps_key(175);
    assert_eq!((c.label_lower, c.linux_keycode, c.action), ("Caps", Some(58), KeyAction::Caps));
    let k = ctrl_key(97, 105);
    assert_eq!((k.label_lower, k.linux_keycode, k.action), ("Ctrl", Some(97), KeyAction::Ctrl));
    let a = alt_key(100, 105);
    assert_eq!((a.label_upper, a.linux_keycode, a.action), ("Alt", Some(100), KeyAction::Alt));
    let n = action_key("Num", KeyAction::NumLock, 100);
    assert_eq!((n.label_lower, n.label_upper, n.linux_keycode, n.action), ("Num", "Num", None, KeyAction::NumLock));
}

#[test]
fn main_rows_have_the_documented_shape() {
    let rows = main_rows(false);
    let lens: Vec<usize> = rows.iter().map(|r| r.len()).collect();
    assert_eq!(lens, vec![13, 14, 15, 13, 13, 10]);
    assert_eq!(rows[0][0], wide("Esc", "Esc", 1, 100));
    assert_eq!(rows[1][13], wide("Bksp", "Bksp", 14, 165));
    assert_eq!(rows[2][13], wide("\\", "|", 43, 125));
    assert_eq!(rows[3][11], key("'", "\"", 40));
    assert_eq!(rows[3][12], wide("Enter", "Enter", 28, 245));
    assert_eq!(rows[4][11], wide("↑", "↑", 103, 100));
    assert_eq!(rows[5][3], wide("", "", 57, 645));
}

#[test]
fn toggle_label_says_what_a_click_does() {
    let closed = main_rows(false);
    let open = main_rows(true);
    assert_eq!(closed[5][9], action_key(">>", KeyAction::ToggleSidebar, 115));
    assert_eq!(open[5][9], action_key("<<", KeyAction::ToggleSidebar, 115));
    for r in 0..6 {
        for c in 0..closed[r].len() {
            if (r, c) != (5, 9) {
                assert_eq!(closed[r][c], open[r][c]);
            }
        }
    }
}

#[test]
fn main_keycodes_are_distinct() {
    let rows = main_rows(false);
    let mut seen = Vec::new();
    for row in &rows {
        for k in row {
            assert!(!seen.contains(&k.linux_keycode), "{:?}", k.linux_keycode);
            seen.push(k.linux_keycode);
        }
    }
    assert_eq!(seen.len(), 78);
}

#[test]
fn sidebar_rows_hold_navigation_keys() {
    let rows = sidebar_rows();
    assert_eq!(rows.len(), 4);
    assert!(rows.iter().all(|r| r.len() == 3));
    assert_eq!(rows[0][2], action_key("Num", KeyAction::NumLock, 100));
    assert_eq!(rows[2][2], key("Del", "Del", 111));
    assert_eq!(rows[3][2], key("Help", "Help", 138));
}

#[test]
fn layout_ids_follow_positions() {
    let collapsed = layout_slots(false);
    assert_eq!(collapsed.len(), 78);
    let expanded = layout_slots(true);
    assert_eq!(expanded.len(), 90);
    for (i, slot) in expanded.iter().enumerate() {
        assert_eq!(slot.id, i);
        assert_eq!(slot.in_sidebar, i >= 78);
    }
    assert_eq!((expanded[13].row, expanded[13].col), (1, 0));
    assert_eq!(expanded[13].def, key("`", "~", 41));
    assert_eq!((expanded[89].row, expanded[89].col), (3, 2));
    assert_eq!(expanded[89].def, key("Help", "Help", 138));
    assert_eq!(expanded[77].def.action, KeyAction::ToggleSidebar);
    assert_eq!(expanded[77].def.label_lower, "<<");
    assert_eq!(collapsed[77].def.label_lower, ">>");
}

#[test]
fn main_and_sidebar_slots_number_on() {
    let main = main_slots(false);
    assert_eq!(main.len(), 78);
    let side = sidebar_slots(main.len());
    assert_eq!(side.len(), 12);
    assert_eq!(side[0].id, 78);
    assert_eq!(side[11].id, 89);
    assert!(side.iter().all(|s| s.in_sidebar));
    let side5 = sidebar_slots(5);
    assert_eq!(side5[0].id, 5);
}

#[test]
fn row_units_sum_the_widths() {
    let rows = main_rows(false);
    let units: Vec<u64> = rows.iter().map(|r| row_units(r)).collect();
    assert_eq!(units, vec![1300, 1465, 1585, 1520, 1525, 1595]);
    assert_eq!(row_units(&Vec::new()), 0);
    let side = sidebar_rows();
    assert_eq!(row_units(&side[0]), 300);
}
