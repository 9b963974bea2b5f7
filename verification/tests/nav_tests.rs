use fin::nav::move_is_defined;
use fin::nav::{
    index_down, index_left, index_right, index_up, key_to_event, next_focus_index, Arrow,
    FocusState, KeyEvent, KEY_DOWN, KEY_ISO_LEFT_TAB, KEY_KP_DOWN, KEY_KP_LEFT, KEY_KP_RIGHT,
    KEY_KP_UP, KEY_LEFT, KEY_RIGHT, KEY_TAB, KEY_UP,
};

#[test]
fn new_index_for_arrow_up() {
    let index = next_focus_index(3, 6, 2, key_to_event(KEY_UP));
    assert_eq!(index, index_up(3, 6, 2));
}

#[test]
fn new_index_for_arrow_down() {
    let index = next_focus_index(1, 6, 2, key_to_event(KEY_DOWN));
    assert_eq!(index, index_down(1, 6, 2));
}

#[test]
fn new_index_for_arrow_left() {
    let index = next_focus_index(1, 6, 2, key_to_event(KEY_LEFT));
    assert_eq!(index, index_left(1, 6));
}

#[test]
fn new_index_for_arrow_right() {
    let index = next_focus_index(0, 6, 2, key_to_event(KEY_RIGHT));
    assert_eq!(index, index_right(0, 6));
}

#[test]
fn calculate_new_index_for_tab_forward() {
    let index = next_focus_index(2, 4, 2, KeyEvent::Tab(true));
    assert_eq!(index, 3);
}

#[test]
fn calculate_new_index_for_tab_backward() {
    let index = next_focus_index(0, 4, 2, KeyEvent::Tab(false));
    assert_eq!(index, 3);
}

#[test]
fn arrow_moves_on_a_two_column_grid() {
    // 0 1
    // 2 3
    // 4 5
    assert_eq!(index_up(3, 6, 2), 1);
    assert_eq!(index_down(1, 6, 2), 3);
    assert_eq!(index_left(1, 6), 0);
    assert_eq!(index_right(0, 6), 1);
}

#[test]
fn up_from_top_row_wraps_to_bottom_of_column() {
    assert_eq!(index_up(0, 6, 2), 4);
    assert_eq!(index_up(1, 6, 2), 5);
}

#[test]
fn up_from_top_row_to_short_last_row() {
    // 0 1 2
    // 3 4
    assert_eq!(index_up(1, 5, 3), 4);
    // column 2 has no cell in the last row: the last button is taken
    assert_eq!(index_up(2, 5, 3), 4);
    assert_eq!(index_up(0, 5, 3), 3);
}

#[test]
fn up_beyond_the_grid_is_clamped_to_the_last_button() {
    assert_eq!(index_up(10, 5, 2), 4);
}

#[test]
fn down_from_bottom_wraps_to_top_of_column() {
    assert_eq!(index_down(4, 6, 2), 0);
    assert_eq!(index_down(5, 6, 2), 1);
    assert_eq!(index_down(2, 5, 3), 2);
}

#[test]
fn left_and_right_wrap_around() {
    assert_eq!(index_left(0, 6), 5);
    assert_eq!(index_right(5, 6), 0);
    assert_eq!(index_left(0, 1), 0);
    assert_eq!(index_right(0, 1), 0);
}

#[test]
fn left_undoes_right_on_every_button() {
    for total in 1..8usize {
        for current in 0..total {
            assert_eq!(index_left(index_right(current, total), total), current);
            assert_eq!(index_right(index_left(current, total), total), current);
        }
    }
}

#[test]
fn up_undoes_down_on_full_grids() {
    for columns in 1..5usize {
        for rows in 1..5usize {
            let total = rows * columns;
            for current in 0..total {
                assert_eq!(index_up(index_down(current, total, columns), total, columns), current);
                assert_eq!(index_down(index_up(current, total, columns), total, columns), current);
            }
        }
    }
}

#[test]
fn focus_stays_on_the_grid() {
    let events = [
        KeyEvent::Arrow(Arrow::Up),
        KeyEvent::Arrow(Arrow::Down),
        KeyEvent::Arrow(Arrow::Left),
        KeyEvent::Arrow(Arrow::Right),
        KeyEvent::Tab(true),
        KeyEvent::Tab(false),
        KeyEvent::Other,
    ];
    for total in 1..9usize {
        for columns in 1..5usize {
            for current in 0..total {
                for event in events {
                    assert!(next_focus_index(current, total, columns, event) < total);
                }
            }
        }
    }
}

#[test]
fn other_keys_keep_the_focus() {
    assert_eq!(next_focus_index(3, 6, 2, KeyEvent::Other), 3);
    assert_eq!(next_focus_index(3, 6, 2, key_to_event(0x61)), 3);
}

#[test]
fn key_symbols_map_to_events() {
    assert!(matches!(key_to_event(KEY_UP), KeyEvent::Arrow(Arrow::Up)));
    assert!(matches!(key_to_event(KEY_KP_UP), KeyEvent::Arrow(Arrow::Up)));
    assert!(matches!(key_to_event(KEY_DOWN), KeyEvent::Arrow(Arrow::Down)));
    assert!(matches!(key_to_event(KEY_KP_DOWN), KeyEvent::Arrow(Arrow::Down)));
    assert!(matches!(key_to_event(KEY_LEFT), KeyEvent::Arrow(Arrow::Left)));
    assert!(matches!(key_to_event(KEY_KP_LEFT), KeyEvent::Arrow(Arrow::Left)));
    assert!(matches!(key_to_event(KEY_RIGHT), KeyEvent::Arrow(Arrow::Right)));
    assert!(matches!(key_to_event(KEY_KP_RIGHT), KeyEvent::Arrow(Arrow::Right)));
    assert!(matches!(key_to_event(KEY_TAB), KeyEvent::Tab(true)));
    assert!(matches!(key_to_event(KEY_ISO_LEFT_TAB), KeyEvent::Tab(false)));
    assert!(matches!(key_to_event(0xff1b), KeyEvent::Other));
}

#[test]
fn focus_state_starts_on_the_first_button() {
    assert_eq!(FocusState::new().current(), 0);
    assert_eq!(FocusState::default().current(), 0);
}

#[test]
fn focus_state_follows_keys() {
    let state = FocusState::new();
    let state = state.transition(KEY_RIGHT, 4, 2);
    assert_eq!(state.current(), 1);
    let state = state.transition(KEY_DOWN, 4, 2);
    assert_eq!(state.current(), 3);
    let state = state.transition(KEY_TAB, 4, 2);
    assert_eq!(state.current(), 0);
    let state = state.transition(KEY_ISO_LEFT_TAB, 4, 2);
    assert_eq!(state.current(), 3);
    let state = state.transition(0x61, 4, 2);
    assert_eq!(state.current(), 3);
}

#[test]
fn defined_moves() {
    assert!(move_is_defined(0, 4, 2, KeyEvent::Arrow(Arrow::Up)));
    assert!(!move_is_defined(0, 0, 2, KeyEvent::Arrow(Arrow::Up)));
    assert!(!move_is_defined(0, 0, 2, KeyEvent::Arrow(Arrow::Left)));
    assert!(!move_is_defined(0, 0, 2, KeyEvent::Tab(true)));
    assert!(move_is_defined(0, 0, 2, KeyEvent::Other));
    // no columns: moving down is defined only while it stays inside
    assert!(move_is_defined(3, 4, 0, KeyEvent::Arrow(Arrow::Down)));
    assert!(!move_is_defined(4, 4, 0, KeyEvent::Arrow(Arrow::Down)));
    assert!(!move_is_defined(usize::MAX, 4, 1, KeyEvent::Arrow(Arrow::Down)));
    assert!(move_is_defined(usize::MAX / 2, usize::MAX / 2 + 1, 1, KeyEvent::Arrow(Arrow::Left)));
}
