//! The decisions of the window: whether it can be built, where each button
//! goes, the text and style it shows, which desktop is running, and what a
//! pressed key does.
use vstd::prelude::*;
use crate::config::zero_columns_message;
use crate::error::{AppError, ConfigError};
use crate::nav::{event_of_key, key_to_event, move_defined, move_is_defined, next_index, FocusState};

verus! {

/// The message when there is nothing to show.
pub open spec fn no_buttons_message() -> Seq<char> {
    "No buttons to display; please check your configuration"@
}

/// Checks that a window can be built for `button_count` buttons in
/// `columns` columns: the columns are checked first, then the buttons.
pub fn check_ui_inputs(columns: usize, button_count: usize) -> (checked: Result<(), AppError>)
    ensures
        columns == 0 ==> (checked matches Err(AppError::Config(ConfigError::Validation(message)))
            && message@ == zero_columns_message()),
        columns > 0 && button_count == 0 ==> (checked matches Err(AppError::Ui(message))
            && message@ == no_buttons_message()),
        columns > 0 && button_count > 0 ==> checked is Ok,
{
    if columns == 0 {
        return Err(
            AppError::Config(
                ConfigError::Validation(String::from_str("columns must be greater than 0")),
            ),
        );
    }
    if button_count == 0 {
        return Err(
            AppError::Ui(String::from_str("No buttons to display; please check your configuration")),
        );
    }
    Ok(())
}

/// The grid cell of button `index`: row `index / columns`, column
/// `index % columns`.
pub fn grid_cell(index: usize, columns: usize) -> (cell: (usize, usize))
    requires
        columns > 0,
    ensures
        cell.0 == index / columns,
        cell.1 == index % columns,
{
    (index / columns, index % columns)
}

/// The tooltip of a button that runs `command`.
pub fn command_tooltip(command: &str) -> (tooltip: String)
    ensures
        tooltip@ == "Executes command: "@ + command@,
{
    let mut tooltip = String::from_str("Executes command: ");
    tooltip.append(command);
    tooltip
}

/// An empty command does nothing; any other is run by the shell.
pub fn command_is_runnable(command: &str) -> (runnable: bool)
    ensures
        runnable == (command@.len() > 0),
{
    command.unicode_len() > 0
}

/// The stylesheet of the window: the generated button style, the user's
/// stylesheet and the theme's properties, one after the other, each
/// separated from the next by a newline.
pub fn combined_css(dynamic_css: &str, user_css: &str, theme_css: &str) -> (css: String)
    ensures
        css@ == dynamic_css@ + "\n"@ + user_css@ + "\n"@ + theme_css@,
{
    let mut css = String::from_str(dynamic_css);
    css.append("\n");
    css.append(user_css);
    css.append("\n");
    css.append(theme_css);
    css
}

// ---------------------------------------------------------------------
// The running desktop
// ---------------------------------------------------------------------

/// What `str::to_lowercase` gives for a string.
pub uninterp spec fn lowercase(s: Seq<char>) -> Seq<char>;

/// `str::to_lowercase`. Trusted, not proved: the result is named
/// `lowercase`, a function of the argument alone; Unicode's lowercase
/// mapping, which it follows, is left unsaid.
#[verifier::external_body]
fn to_lowercase(s: &str) -> (lower: String)
    ensures
        lower@ == lowercase(s@),
{
    s.to_lowercase()
}

/// `i` is the position of the first `:` in `s`.
pub open spec fn is_first_colon(s: Seq<char>, i: int) -> bool {
    &&& 0 <= i < s.len()
    &&& s[i] == ':'
    &&& forall|j: int| 0 <= j < i ==> s[j] != ':'
}

/// The part of `s` before its first `:`, all of `s` when it has none.
pub open spec fn leading_field(s: Seq<char>) -> Seq<char> {
    if exists|i: int| is_first_colon(s, i) {
        s.take(choose|i: int| is_first_colon(s, i))
    } else {
        s
    }
}

fn first_field(s: &str) -> (field: String)
    ensures
        field@ == leading_field(s@),
{
    let len = s.unicode_len();
    let mut i: usize = 0;
    while i < len
        invariant
            len == s@.len(),
            i <= len,
            forall|j: int| 0 <= j < i ==> s@[j] != ':',
        decreases len - i,
    {
        if s.get_char(i) == ':' {
            proof {
                assert(is_first_colon(s@, i as int));
                let k = choose|k: int| is_first_colon(s@, k);
                assert(k == i as int) by {
                    if k < i {
                        assert(s@[k] != ':');
                    } else if k > i {
                        assert(s@[i as int] != ':');
                    }
                }
            }
            return String::from_str(s.substring_char(0, i));
        }
        i = i + 1;
    }
    assert(s@.take(len as int) =~= s@);
    String::from_str(s)
}

/// The desktop that the environment names: `XDG_CURRENT_DESKTOP` when it is
/// set, else `DESKTOP_SESSION`, else nothing.
pub open spec fn desktop_variable(
    xdg_current_desktop: Option<Seq<char>>,
    desktop_session: Option<Seq<char>>,
) -> Seq<char> {
    match xdg_current_desktop {
        Some(v) => v,
        None => match desktop_session {
            Some(v) => v,
            None => Seq::empty(),
        },
    }
}

/// `XDG_CURRENT_DESKTOP`, when set, decides alone; `DESKTOP_SESSION` is read
/// only when it is not set.
pub proof fn lemma_desktop_variable_choice(
    xdg_current_desktop: Option<Seq<char>>,
    desktop_session: Option<Seq<char>>,
    other_session: Option<Seq<char>>,
)
    ensures
        xdg_current_desktop is Some ==> desktop_variable(xdg_current_desktop, desktop_session)
            == xdg_current_desktop->0 && desktop_variable(xdg_current_desktop, desktop_session)
            == desktop_variable(xdg_current_desktop, other_session),
        xdg_current_desktop is None && desktop_session is Some ==> desktop_variable(
            xdg_current_desktop,
            desktop_session,
        ) == desktop_session->0,
        xdg_current_desktop is None && desktop_session is None ==> desktop_variable(
            xdg_current_desktop,
            desktop_session,
        ) == Seq::<char>::empty(),
{
}

/// The leading field of `s` is the part of `s` up to its first `:`: a
/// prefix of `s` without `:`, which is all of `s` or is followed by a `:`.
pub proof fn lemma_leading_field(s: Seq<char>)
    ensures
        leading_field(s).len() <= s.len(),
        leading_field(s) == s.take(leading_field(s).len() as int),
        forall|j: int| 0 <= j < leading_field(s).len() ==> leading_field(s)[j] != ':',
        leading_field(s).len() < s.len() ==> s[leading_field(s).len() as int] == ':',
{
    if exists|i: int| is_first_colon(s, i) {
        let i = choose|i: int| is_first_colon(s, i);
        assert(leading_field(s) =~= s.take(i));
    } else {
        assert forall|j: int| 0 <= j < s.len() implies s[j] != ':' by {
            if s[j] == ':' {
                // the first colon is at or before j
                let k = first_colon_at_most(s, j);
                assert(is_first_colon(s, k));
            }
        }
        assert(s.take(s.len() as int) =~= s);
    }
}

/// A `:` at position `j` means there is a first `:` at or before `j`.
proof fn first_colon_at_most(s: Seq<char>, j: int) -> (k: int)
    requires
        0 <= j < s.len(),
        s[j] == ':',
    ensures
        is_first_colon(s, k),
        k <= j,
    decreases j,
{
    if exists|i: int| 0 <= i < j && s[i] == ':' {
        let i = choose|i: int| 0 <= i < j && s[i] == ':';
        first_colon_at_most(s, i)
    } else {
        j
    }
}

/// Detects the current desktop environment from the values of the
/// `XDG_CURRENT_DESKTOP` and `DESKTOP_SESSION` environment variables: the
/// first entry of the variable's colon-separated list, in lower case.
pub fn detect_desktop_environment(
    xdg_current_desktop: Option<String>,
    desktop_session: Option<String>,
) -> (desktop: String)
    ensures
        desktop@ == leading_field(
            lowercase(desktop_variable(xdg_current_desktop.deep_view(), desktop_session.deep_view())),
        ),
        xdg_current_desktop matches Some(v) ==> desktop@ == leading_field(lowercase(v@)),
        xdg_current_desktop is None ==> (desktop_session matches Some(v) ==> desktop@
            == leading_field(lowercase(v@))),
        xdg_current_desktop is None && desktop_session is None ==> desktop@ == leading_field(
            lowercase(Seq::empty()),
        ),
{
    let value = match xdg_current_desktop {
        Some(v) => v,
        None => match desktop_session {
            Some(v) => v,
            None => String::new(),
        },
    };
    let lower = to_lowercase(value.as_str());
    first_field(lower.as_str())
}

// ---------------------------------------------------------------------
// Keys
// ---------------------------------------------------------------------

/// Key symbol of the Escape key.
pub const KEY_ESCAPE: u32 = 0xff1b;
/// Key symbol of the Return key.
pub const KEY_RETURN: u32 = 0xff0d;

/// What the window does in answer to a key.
#[derive(Debug, Clone, Copy, PartialEq, Eq)]
pub enum KeyAction {
    /// Close the application.
    Quit,
    /// Press the button at this index.
    Activate(usize),
    /// Move the keyboard focus to the button at this index.
    Focus(usize),
    /// Nothing changes.
    Ignore,
}

/// The keys that need no navigation.
pub open spec fn is_command_key(keyval: u32) -> bool {
    keyval == KEY_ESCAPE || keyval == KEY_RETURN
}

/// Whether `handle_key` may be called with these inputs: Escape and Return
/// always, any other key when its move is defined.
pub fn key_is_handled(state: FocusState, keyval: u32, total: usize, columns: usize) -> (handled: bool)
    ensures
        handled == (is_command_key(keyval) || move_defined(
            state@ as usize,
            total,
            columns,
            event_of_key(keyval),
        )),
{
    if keyval == KEY_ESCAPE || keyval == KEY_RETURN {
        return true;
    }
    move_is_defined(state.current(), total, columns, key_to_event(keyval))
}

/// Handles a pressed key on a window of `total` buttons in `columns`
/// columns: Escape quits, Return presses the focused button, and any other
/// key moves the focus, which is reported only when it changed.
pub fn handle_key(state: FocusState, keyval: u32, total: usize, columns: usize) -> (answer: (
    FocusState,
    KeyAction,
))
    requires
        !is_command_key(keyval) ==> move_defined(state@ as usize, total, columns, event_of_key(keyval)),
    ensures
        keyval == KEY_ESCAPE ==> answer == (state, KeyAction::Quit),
        keyval == KEY_RETURN ==> answer == (state, KeyAction::Activate(state@ as usize)),
        !is_command_key(keyval) ==> {
            let next = next_index(state@ as int, total as int, columns as int, event_of_key(keyval));
            if next == state@ {
                answer == (state, KeyAction::Ignore)
            } else {
                answer.0@ == next && answer.1 == KeyAction::Focus(next as usize)
            }
        },
{
    if keyval == KEY_ESCAPE {
        return (state, KeyAction::Quit);
    }
    if keyval == KEY_RETURN {
        return (state, KeyAction::Activate(state.current()));
    }
    let new_state = state.transition(keyval, total, columns);
    if new_state.current() != state.current() {
        (new_state, KeyAction::Focus(new_state.current()))
    } else {
        (state, KeyAction::Ignore)
    }
}

} // verus!
