use fin::ui::key_is_handled;
use fin::error::{AppError, ConfigError};
use fin::nav::{FocusState, KEY_DOWN, KEY_LEFT, KEY_RIGHT};
use fin::ui::{
    check_ui_inputs, combined_css, command_is_runnable, command_tooltip,
    detect_desktop_environment, grid_cell, handle_key, KeyAction, KEY_ESCAPE, KEY_RETURN,
};

#[test]
fn zero_columns_refuse_the_window() {
    match check_ui_inputs(0, 3) {
        Err(AppError::Config(ConfigError::Validation(message))) => {
            assert_eq!(message, "columns must be greater than 0")
        }
        other => panic!("unexpected {:?}", other),
    }
}

#[test]
fn no_buttons_refuse_the_window() {
    match check_ui_inputs(2, 0) {
        Err(AppError::Ui(message)) => {
            assert_eq!(message, "No buttons to display; please check your configuration")
        }
        other => panic!("unexpected {:?}", other),
    }
    // the columns are checked first
    assert!(matches!(check_ui_inputs(0, 0), Err(AppError::Config(_))));
}

#[test]
fn columns_and_buttons_allow_the_window() {
    assert!(check_ui_inputs(3, 5).is_ok());
}

#[test]
fn buttons_fill_the_grid_row_by_row() {
    assert_eq!(grid_cell(0, 3), (0, 0));
    assert_eq!(grid_cell(2, 3), (0, 2));
    assert_eq!(grid_cell(3, 3), (1, 0));
    assert_eq!(grid_cell(4, 3), (1, 1));
    assert_eq!(grid_cell(4, 1), (4, 0));
}

#[test]
fn tooltip_names_the_command() {
    assert_eq!(command_tooltip("systemctl reboot"), "Executes command: systemctl reboot");
}

#[test]
fn empty_commands_are_not_run() {
    assert!(!command_is_runnable(""));
    assert!(command_is_runnable("systemctl poweroff"));
}

#[test]
fn css_parts_are_joined_by_newlines() {
    assert_eq!(combined_css("a", "b", "c"), "a\nb\nc");
    assert_eq!(combined_css("", "", ""), "\n\n");
}

#[test]
fn desktop_from_xdg_current_desktop() {
    assert_eq!(
        detect_desktop_environment(Some("ubuntu:GNOME".to_string()), Some("x".to_string())),
        "ubuntu"
    );
    assert_eq!(detect_desktop_environment(Some("Hyprland".to_string()), None), "hyprland");
}

#[test]
fn desktop_from_desktop_session() {
    assert_eq!(detect_desktop_environment(None, Some("XFCE".to_string())), "xfce");
}

#[test]
fn no_desktop_variable_gives_empty_name() {
    assert_eq!(detect_desktop_environment(None, None), "");
}

#[test]
fn escape_quits_and_return_presses() {
    let state = FocusState::new().transition(KEY_RIGHT, 4, 2);
    let (after, action) = handle_key(state, KEY_ESCAPE, 4, 2);
    assert_eq!(action, KeyAction::Quit);
    assert_eq!(after.current(), 1);
    let (after, action) = handle_key(state, KEY_RETURN, 4, 2);
    assert_eq!(action, KeyAction::Activate(1));
    assert_eq!(after.current(), 1);
}

#[test]
fn arrows_move_the_focus() {
    let state = FocusState::new();
    let (after, action) = handle_key(state, KEY_DOWN, 4, 2);
    assert_eq!(action, KeyAction::Focus(2));
    assert_eq!(after.current(), 2);
    // a single button: moving left stays on it
    let (after, action) = handle_key(state, KEY_LEFT, 1, 1);
    assert_eq!(action, KeyAction::Ignore);
    assert_eq!(after.current(), 0);
}

#[test]
fn keys_that_can_be_handled() {
    let state = FocusState::new();
    assert!(key_is_handled(state, KEY_ESCAPE, 0, 0));
    assert!(key_is_handled(state, KEY_RETURN, 0, 0));
    assert!(!key_is_handled(state, KEY_LEFT, 0, 1));
    assert!(key_is_handled(state, KEY_LEFT, 3, 1));
}
