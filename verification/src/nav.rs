//! Keyboard navigation over a grid of buttons laid out row by row.
//!
//! Buttons are numbered `0..total` and placed `columns` to a row, so button
//! `i` stands in row `i / columns` and column `i % columns`.
use vstd::prelude::*;
use vstd::arithmetic::div_mod::lemma_fundamental_div_mod_converse;

verus! {

/// A direction for arrow-key navigation.
#[derive(Debug, Clone, Copy, PartialEq, Eq)]
pub enum Arrow {
    Up,
    Down,
    Left,
    Right,
}

/// A normalized navigation event that does not depend on toolkit key codes.
#[derive(Debug, Clone, Copy)]
pub enum KeyEvent {
    Arrow(Arrow),
    /// `Tab(true)` moves forward, `Tab(false)` (Shift+Tab) moves backward.
    Tab(bool),
    Other,
}

/// Key symbol of the Up arrow key.
pub const KEY_UP: u32 = 0xff52;
/// Key symbol of the keypad Up key.
pub const KEY_KP_UP: u32 = 0xff97;
/// Key symbol of the Down arrow key.
pub const KEY_DOWN: u32 = 0xff54;
/// Key symbol of the keypad Down key.
pub const KEY_KP_DOWN: u32 = 0xff99;
/// Key symbol of the Left arrow key.
pub const KEY_LEFT: u32 = 0xff51;
/// Key symbol of the keypad Left key.
pub const KEY_KP_LEFT: u32 = 0xff96;
/// Key symbol of the Right arrow key.
pub const KEY_RIGHT: u32 = 0xff53;
/// Key symbol of the keypad Right key.
pub const KEY_KP_RIGHT: u32 = 0xff98;
/// Key symbol of the Tab key.
pub const KEY_TAB: u32 = 0xff09;
/// Key symbol that Shift+Tab produces.
pub const KEY_ISO_LEFT_TAB: u32 = 0xfe20;

/// The event that a key symbol stands for.
pub open spec fn event_of_key(keyval: u32) -> KeyEvent {
    if keyval == KEY_UP || keyval == KEY_KP_UP {
        KeyEvent::Arrow(Arrow::Up)
    } else if keyval == KEY_DOWN || keyval == KEY_KP_DOWN {
        KeyEvent::Arrow(Arrow::Down)
    } else if keyval == KEY_LEFT || keyval == KEY_KP_LEFT {
        KeyEvent::Arrow(Arrow::Left)
    } else if keyval == KEY_RIGHT || keyval == KEY_KP_RIGHT {
        KeyEvent::Arrow(Arrow::Right)
    } else if keyval == KEY_TAB {
        KeyEvent::Tab(true)
    } else if keyval == KEY_ISO_LEFT_TAB {
        KeyEvent::Tab(false)
    } else {
        KeyEvent::Other
    }
}

/// Maps a raw key symbol to a normalized `KeyEvent`.
pub fn key_to_event(keyval: u32) -> (event: KeyEvent)
    ensures
        event == event_of_key(keyval),
{
    if keyval == KEY_UP || keyval == KEY_KP_UP {
        KeyEvent::Arrow(Arrow::Up)
    } else if keyval == KEY_DOWN || keyval == KEY_KP_DOWN {
        KeyEvent::Arrow(Arrow::Down)
    } else if keyval == KEY_LEFT || keyval == KEY_KP_LEFT {
        KeyEvent::Arrow(Arrow::Left)
    } else if keyval == KEY_RIGHT || keyval == KEY_KP_RIGHT {
        KeyEvent::Arrow(Arrow::Right)
    } else if keyval == KEY_TAB {
        KeyEvent::Tab(true)
    } else if keyval == KEY_ISO_LEFT_TAB {
        KeyEvent::Tab(false)
    } else {
        KeyEvent::Other
    }
}

// ---------------------------------------------------------------------
// The moves, as functions on integers
// ---------------------------------------------------------------------

/// The row of the last button: `(total - 1) / columns`.
pub open spec fn last_row(total: int, columns: int) -> int {
    (total - 1) / columns
}

/// Moving up: one row up in the same column; from the top row, wrap to the
/// last row in the same column, or to the last button when the last row is
/// too short to reach that column.
pub open spec fn up_index(current: int, total: int, columns: int) -> int {
    if current >= columns {
        let above = current - columns;
        let last = if total > 0 { total - 1 } else { 0 };
        if above <= last { above } else { last }
    } else {
        let candidate = last_row(total, columns) * columns + current % columns;
        if candidate < total { candidate } else { total - 1 }
    }
}

/// Moving down: one row down in the same column; past the last button, wrap
/// to the top row in the same column.
pub open spec fn down_index(current: int, total: int, columns: int) -> int {
    if current + columns < total { current + columns } else { current % columns }
}

/// Moving left (or Shift+Tab): the previous button, wrapping from the first
/// to the last.
pub open spec fn left_index(current: int, total: int) -> int {
    (current + total - 1) % total
}

/// Moving right (or Tab): the next button, wrapping from the last to the
/// first.
pub open spec fn right_index(current: int, total: int) -> int {
    (current + 1) % total
}

/// Moving up neither divides by zero, subtracts below zero nor overflows.
pub open spec fn up_defined(current: usize, total: usize, columns: usize) -> bool {
    current < columns ==> {
        &&& total > 0
        &&& last_row(total as int, columns as int) * columns + current % columns <= usize::MAX
    }
}

/// Moving down neither divides by zero nor overflows.
pub open spec fn down_defined(current: usize, total: usize, columns: usize) -> bool {
    &&& current + columns <= usize::MAX
    &&& current + columns >= total ==> columns > 0
}

/// Moving left neither divides by zero nor overflows.
pub open spec fn left_defined(current: usize, total: usize) -> bool {
    total > 0 && current + total <= usize::MAX
}

/// Moving right neither divides by zero nor overflows.
pub open spec fn right_defined(current: usize, total: usize) -> bool {
    total > 0 && current + 1 <= usize::MAX
}

/// The inputs on which handling `event` is defined.
pub open spec fn move_defined(current: usize, total: usize, columns: usize, event: KeyEvent) -> bool {
    match event {
        KeyEvent::Arrow(Arrow::Up) => up_defined(current, total, columns),
        KeyEvent::Arrow(Arrow::Down) => down_defined(current, total, columns),
        KeyEvent::Arrow(Arrow::Left) => left_defined(current, total),
        KeyEvent::Arrow(Arrow::Right) => right_defined(current, total),
        KeyEvent::Tab(true) => right_defined(current, total),
        KeyEvent::Tab(false) => left_defined(current, total),
        KeyEvent::Other => true,
    }
}

/// The focus index after `event`.
pub open spec fn next_index(current: int, total: int, columns: int, event: KeyEvent) -> int {
    match event {
        KeyEvent::Arrow(Arrow::Up) => up_index(current, total, columns),
        KeyEvent::Arrow(Arrow::Down) => down_index(current, total, columns),
        KeyEvent::Arrow(Arrow::Left) => left_index(current, total),
        KeyEvent::Arrow(Arrow::Right) => right_index(current, total),
        KeyEvent::Tab(true) => right_index(current, total),
        KeyEvent::Tab(false) => left_index(current, total),
        KeyEvent::Other => current,
    }
}

proof fn lemma_last_row_bounds(total: int, columns: int)
    requires
        total > 0,
        columns > 0,
    ensures
        0 <= last_row(total, columns) * columns <= total - 1,
        total - 1 < last_row(total, columns) * columns + columns,
{
    let q = (total - 1) / columns;
    let r = (total - 1) % columns;
    assert(q * columns + r == total - 1 && 0 <= r < columns && q >= 0) by (nonlinear_arith)
        requires
            total > 0,
            columns > 0,
            q == (total - 1) / columns,
            r == (total - 1) % columns,
    ;
    assert(q * columns >= 0) by (nonlinear_arith)
        requires
            q >= 0,
            columns > 0,
    ;
}

/// Calculate the new index when moving up. Wraps to the bottom in the same
/// column if necessary.
pub fn index_up(current: usize, total: usize, columns: usize) -> (index: usize)
    requires
        up_defined(current, total, columns),
    ensures
        index == up_index(current as int, total as int, columns as int),
        current >= columns && current < total ==> index == current - columns,
        current < columns && current < total ==> index < total && (if (total - 1) % (
        columns as int) >= current {
            index % columns == current && index + columns >= total
        } else {
            index == total - 1
        }),
{
    proof {
        if current < total {
            lemma_up_moves(current as int, total as int, columns as int);
        }
    }
    if let Some(new_index) = current.checked_sub(columns) {
        let last = total.saturating_sub(1);
        if new_index <= last { new_index } else { last }
    } else {
        let col = current % columns;
        let last_row = (total - 1) / columns;
        proof {
            lemma_last_row_bounds(total as int, columns as int);
        }
        let candidate = last_row * columns + col;
        if candidate < total {
            candidate
        } else {
            total - 1
        }
    }
}

/// Calculate the new index when moving down. Wraps to the top in the same
/// column if necessary.
pub fn index_down(current: usize, total: usize, columns: usize) -> (index: usize)
    requires
        down_defined(current, total, columns),
    ensures
        index == down_index(current as int, total as int, columns as int),
        current + columns < total ==> index == current + columns,
        current + columns >= total && columns > 0 ==> index == current % columns && index
            < columns,
{
    proof {
        lemma_down_moves(current as int, total as int, columns as int);
    }
    let candidate = current + columns;
    if candidate < total {
        candidate
    } else {
        current % columns
    }
}

/// Calculate the new index when moving left. Wraps from first button to last.
pub fn index_left(current: usize, total: usize) -> (index: usize)
    requires
        left_defined(current, total),
    ensures
        index == left_index(current as int, total as int),
        0 < current < total ==> index == current - 1,
        current == 0 ==> index == total - 1,
{
    proof {
        if current < total {
            lemma_left_right_moves(current as int, total as int);
        } else if current == 0 {
            lemma_left_right_moves(0, total as int);
        }
    }
    (current + total - 1) % total
}

/// Calculate the new index when moving right. Wraps from last button to first.
pub fn index_right(current: usize, total: usize) -> (index: usize)
    requires
        right_defined(current, total),
    ensures
        index == right_index(current as int, total as int),
        current + 1 < total ==> index == current + 1,
        current + 1 == total ==> index == 0,
{
    proof {
        if current < total {
            lemma_left_right_moves(current as int, total as int);
        }
    }
    (current + 1) % total
}

/// Computes a new focus index from a normalized `KeyEvent`.
pub fn next_focus_index(current: usize, total: usize, columns: usize, event: KeyEvent) -> (index: usize)
    requires
        move_defined(current, total, columns, event),
    ensures
        index == next_index(current as int, total as int, columns as int, event),
{
    match event {
        KeyEvent::Arrow(dir) => match dir {
            Arrow::Up => index_up(current, total, columns),
            Arrow::Down => index_down(current, total, columns),
            Arrow::Left => index_left(current, total),
            Arrow::Right => index_right(current, total),
        },
        KeyEvent::Tab(forward) => {
            if forward {
                (current + 1) % total
            } else {
                (current + total - 1) % total
            }
        },
        KeyEvent::Other => current,
    }
}

fn up_is_defined(current: usize, total: usize, columns: usize) -> (defined: bool)
    ensures
        defined == up_defined(current, total, columns),
{
    if current >= columns {
        return true;
    }
    if total == 0 {
        return false;
    }
    let last_row = (total - 1) / columns;
    match last_row.checked_mul(columns) {
        Some(start) => start.checked_add(current % columns).is_some(),
        None => {
            proof {
                assert(last_row * columns + current % columns > usize::MAX) by (nonlinear_arith)
                    requires
                        last_row * columns > usize::MAX,
                        columns > 0,
                ;
            }
            false
        },
    }
}

/// Whether `event` can be handled on these inputs, that is, whether
/// `next_focus_index` may be called on them.
pub fn move_is_defined(current: usize, total: usize, columns: usize, event: KeyEvent) -> (defined: bool)
    ensures
        defined == move_defined(current, total, columns, event),
{
    let left = total > 0 && current.checked_add(total).is_some();
    let right = total > 0 && current < usize::MAX;
    match event {
        KeyEvent::Arrow(Arrow::Up) => up_is_defined(current, total, columns),
        KeyEvent::Arrow(Arrow::Down) => match current.checked_add(columns) {
            Some(below) => below < total || columns > 0,
            None => false,
        },
        KeyEvent::Arrow(Arrow::Left) => left,
        KeyEvent::Arrow(Arrow::Right) => right,
        KeyEvent::Tab(true) => right,
        KeyEvent::Tab(false) => left,
        KeyEvent::Other => true,
    }
}

// ---------------------------------------------------------------------
// Laws of navigation
// ---------------------------------------------------------------------

/// On a grid of at most `usize::MAX / 2` buttons and columns, with the focus
/// on one of the buttons, every key can be handled.
pub proof fn lemma_moves_defined(current: usize, total: usize, columns: usize, event: KeyEvent)
    requires
        current < total,
        total <= usize::MAX / 2,
        columns <= usize::MAX / 2,
    ensures
        move_defined(current, total, columns, event),
{
    if current < columns {
        lemma_last_row_bounds(total as int, columns as int);
        assert(current % columns == current) by (nonlinear_arith)
            requires
                current < columns,
        ;
    }
}

/// Navigation never leaves the grid: from a focused button, every key moves
/// the focus to a button.
pub proof fn lemma_next_index_in_grid(current: usize, total: usize, columns: usize, event: KeyEvent)
    requires
        current < total,
        move_defined(current, total, columns, event),
    ensures
        0 <= next_index(current as int, total as int, columns as int, event) < total,
{
    match event {
        KeyEvent::Arrow(Arrow::Up) => {
            if current < columns {
                lemma_last_row_bounds(total as int, columns as int);
                assert(0 <= current % columns) by (nonlinear_arith)
                    requires
                        columns > 0,
                ;
            }
        },
        KeyEvent::Arrow(Arrow::Down) => {
            if current + columns >= total {
                assert(0 <= current % columns <= current) by (nonlinear_arith)
                    requires
                        columns > 0,
                ;
            }
        },
        _ => {},
    }
}

/// Moving down goes one row down in the same column while there is a button
/// there; from a button with none below it, it lands in the top row, in the
/// same column, on every grid shape.
pub proof fn lemma_down_moves(current: int, total: int, columns: int)
    requires
        0 <= current,
        0 <= columns,
    ensures
        current + columns < total ==> down_index(current, total, columns) == current + columns,
        current + columns >= total && columns > 0 ==> {
            let below = down_index(current, total, columns);
            &&& below == current % columns
            &&& 0 <= below < columns
            &&& below % columns == current % columns
        },
{
    if current + columns >= total && columns > 0 {
        let col = current % columns;
        assert(0 <= col < columns) by (nonlinear_arith)
            requires
                columns > 0,
                col == current % columns,
        ;
        lemma_fundamental_div_mod_converse(col, columns, 0, col);
    }
}

/// Moving up goes one row up in the same column; from the top row it lands
/// on the last button of the same column when the last row reaches that
/// column, and on the last button otherwise.
pub proof fn lemma_up_moves(current: int, total: int, columns: int)
    requires
        0 <= current < total,
        0 <= columns,
    ensures
        current >= columns ==> up_index(current, total, columns) == current - columns,
        current < columns ==> {
            let above = up_index(current, total, columns);
            &&& 0 <= above < total
            &&& (total - 1) % columns >= current ==> above % columns == current && above
                + columns >= total
            &&& (total - 1) % columns < current ==> above == total - 1
        },
{
    if current < columns {
        lemma_last_row_bounds(total, columns);
        lemma_fundamental_div_mod_converse(current, columns, 0, current);
        let row = last_row(total, columns);
        let last_col = (total - 1) % columns;
        assert(row * columns + last_col == total - 1 && 0 <= last_col < columns) by (nonlinear_arith)
            requires
                columns > 0,
                total > 0,
                row == (total - 1) / columns,
                last_col == (total - 1) % columns,
        ;
        if last_col >= current {
            assert(row >= 0) by (nonlinear_arith)
                requires
                    columns > 0,
                    total > 0,
                    row == (total - 1) / columns,
            ;
            lemma_fundamental_div_mod_converse(row * columns + current, columns, row, current);
        }
    }
}

/// Right goes to the next button and from the last to the first; Left goes
/// to the previous button and from the first to the last.
pub proof fn lemma_left_right_moves(current: int, total: int)
    requires
        0 <= current < total,
    ensures
        current + 1 < total ==> right_index(current, total) == current + 1,
        current + 1 == total ==> right_index(current, total) == 0,
        current > 0 ==> left_index(current, total) == current - 1,
        current == 0 ==> left_index(current, total) == total - 1,
{
    if current + 1 < total {
        lemma_fundamental_div_mod_converse(current + 1, total, 0, current + 1);
    } else {
        lemma_fundamental_div_mod_converse(total, total, 1, 0);
    }
    if current > 0 {
        lemma_fundamental_div_mod_converse(current + total - 1, total, 1, current - 1);
    } else {
        lemma_fundamental_div_mod_converse(total - 1, total, 0, total - 1);
    }
}

/// What each key does to a focused button: Right and Tab go to the next
/// button (from the last to the first), Left and Shift+Tab to the previous
/// one (from the first to the last), Down one row down or, with no button
/// below, to the top of the same column, Up one row up when there is a row
/// above, and any other key leaves the focus where it is.
pub proof fn lemma_keys_move(current: int, total: int, columns: int)
    requires
        0 <= current < total,
        0 <= columns,
    ensures
        ({
            let next = if current + 1 < total { current + 1 } else { 0 };
            &&& next_index(current, total, columns, KeyEvent::Arrow(Arrow::Right)) == next
            &&& next_index(current, total, columns, KeyEvent::Tab(true)) == next
        }),
        ({
            let previous = if current > 0 { current - 1 } else { total - 1 };
            &&& next_index(current, total, columns, KeyEvent::Arrow(Arrow::Left)) == previous
            &&& next_index(current, total, columns, KeyEvent::Tab(false)) == previous
        }),
        current + columns < total ==> next_index(current, total, columns, KeyEvent::Arrow(Arrow::Down))
            == current + columns,
        current + columns >= total && columns > 0 ==> next_index(
            current,
            total,
            columns,
            KeyEvent::Arrow(Arrow::Down),
        ) == current % columns,
        current >= columns ==> next_index(current, total, columns, KeyEvent::Arrow(Arrow::Up))
            == current - columns,
        next_index(current, total, columns, KeyEvent::Other) == current,
{
    lemma_left_right_moves(current, total);
    lemma_down_moves(current, total, columns);
    lemma_up_moves(current, total, columns);
}

/// Each key symbol stands for its navigation event; all other symbols are
/// no navigation keys.
pub proof fn lemma_key_events(keyval: u32)
    ensures
        event_of_key(KEY_UP) == KeyEvent::Arrow(Arrow::Up),
        event_of_key(KEY_KP_UP) == KeyEvent::Arrow(Arrow::Up),
        event_of_key(KEY_DOWN) == KeyEvent::Arrow(Arrow::Down),
        event_of_key(KEY_KP_DOWN) == KeyEvent::Arrow(Arrow::Down),
        event_of_key(KEY_LEFT) == KeyEvent::Arrow(Arrow::Left),
        event_of_key(KEY_KP_LEFT) == KeyEvent::Arrow(Arrow::Left),
        event_of_key(KEY_RIGHT) == KeyEvent::Arrow(Arrow::Right),
        event_of_key(KEY_KP_RIGHT) == KeyEvent::Arrow(Arrow::Right),
        event_of_key(KEY_TAB) == KeyEvent::Tab(true),
        event_of_key(KEY_ISO_LEFT_TAB) == KeyEvent::Tab(false),
        keyval != KEY_UP && keyval != KEY_KP_UP && keyval != KEY_DOWN && keyval != KEY_KP_DOWN
            && keyval != KEY_LEFT && keyval != KEY_KP_LEFT && keyval != KEY_RIGHT && keyval
            != KEY_KP_RIGHT && keyval != KEY_TAB && keyval != KEY_ISO_LEFT_TAB ==> event_of_key(
            keyval,
        ) == KeyEvent::Other,
{
}

/// Keys that are not navigation keys leave the focus where it is.
pub proof fn lemma_other_keys_keep_focus(current: int, total: int, columns: int)
    ensures
        next_index(current, total, columns, KeyEvent::Other) == current,
{
}

/// Tab moves as Right does, and Shift+Tab as Left does.
pub proof fn lemma_tab_moves_like_arrows(current: int, total: int, columns: int)
    ensures
        next_index(current, total, columns, KeyEvent::Tab(true)) == next_index(
            current,
            total,
            columns,
            KeyEvent::Arrow(Arrow::Right),
        ),
        next_index(current, total, columns, KeyEvent::Tab(false)) == next_index(
            current,
            total,
            columns,
            KeyEvent::Arrow(Arrow::Left),
        ),
{
}

/// Left undoes Right and Right undoes Left, on every button.
pub proof fn lemma_left_right_inverse(current: int, total: int)
    requires
        0 <= current < total,
    ensures
        left_index(right_index(current, total), total) == current,
        right_index(left_index(current, total), total) == current,
{
    if current + 1 < total {
        lemma_fundamental_div_mod_converse(current + 1, total, 0, current + 1);
        lemma_fundamental_div_mod_converse(current + total, total, 1, current);
    } else {
        lemma_fundamental_div_mod_converse(total, total, 1, 0);
        lemma_fundamental_div_mod_converse(total - 1, total, 0, total - 1);
    }
    if current > 0 {
        lemma_fundamental_div_mod_converse(current + total - 1, total, 1, current - 1);
        lemma_fundamental_div_mod_converse(current, total, 0, current);
    } else {
        lemma_fundamental_div_mod_converse(total - 1, total, 0, total - 1);
        lemma_fundamental_div_mod_converse(total, total, 1, 0);
    }
}

/// Away from the edges, Up undoes Down and Down undoes Up.
pub proof fn lemma_up_down_inverse_inside(current: int, total: int, columns: int)
    requires
        0 <= columns,
        0 <= current < total,
    ensures
        current + columns < total ==> up_index(down_index(current, total, columns), total, columns)
            == current,
        current >= columns ==> down_index(up_index(current, total, columns), total, columns)
            == current,
{
}

/// On a full grid (every row complete), Up and Down undo each other on every
/// button, wrapping included.
pub proof fn lemma_up_down_inverse_full_grid(current: int, total: int, columns: int)
    requires
        columns > 0,
        total > 0,
        total % columns == 0,
        0 <= current < total,
    ensures
        up_index(down_index(current, total, columns), total, columns) == current,
        down_index(up_index(current, total, columns), total, columns) == current,
{
    let rows = total / columns;
    let row = current / columns;
    let col = current % columns;
    assert(total == rows * columns && current == row * columns + col && 0 <= col < columns && 0
        <= row < rows) by (nonlinear_arith)
        requires
            columns > 0,
            total > 0,
            total % columns == 0,
            rows == total / columns,
            row == current / columns,
            col == current % columns,
            0 <= current < total,
    ;
    assert(last_row(total, columns) == rows - 1) by (nonlinear_arith)
        requires
            total == rows * columns,
            columns > 0,
            rows >= 1,
    ;
    // Wrapping down from the last row lands on the top cell of the column.
    if current + columns >= total {
        assert(row == rows - 1) by (nonlinear_arith)
            requires
                current == row * columns + col,
                total == rows * columns,
                current + columns >= total,
                0 <= col < columns,
                row < rows,
        ;
        lemma_fundamental_div_mod_converse(col, columns, 0, col);
        assert(down_index(current, total, columns) == col);
        assert(up_index(col, total, columns) == current);
    }
    // Wrapping up from the top row lands on the bottom cell of the column.
    if current < columns {
        assert(row == 0) by (nonlinear_arith)
            requires
                current == row * columns + col,
                current < columns,
                columns > 0,
                0 <= col,
                row >= 0,
        ;
        lemma_fundamental_div_mod_converse(current, columns, 0, current);
        let bottom = (rows - 1) * columns + current;
        assert(bottom + columns == total + current) by (nonlinear_arith)
            requires
                bottom == (rows - 1) * columns + current,
                total == rows * columns,
        ;
        assert(up_index(current, total, columns) == bottom);
        lemma_fundamental_div_mod_converse(bottom, columns, rows - 1, current);
        assert(down_index(bottom, total, columns) == current);
    }
}

/// An immutable wrapper holding the currently focused button index.
#[derive(Debug, Clone, Copy)]
pub struct FocusState(usize);

impl View for FocusState {
    type V = nat;

    closed spec fn view(&self) -> nat {
        self.0 as nat
    }
}

impl FocusState {
    /// The state in which the first button has the focus.
    pub fn new() -> (state: Self)
        ensures
            state@ == 0,
    {
        FocusState(0)
    }

    /// The index of the focused button.
    pub fn current(&self) -> (index: usize)
        ensures
            index == self@,
    {
        self.0
    }

    /// Returns the next state for a pressed key, given by its key symbol.
    pub fn transition(&self, keyval: u32, total: usize, columns: usize) -> (next: Self)
        requires
            move_defined(self@ as usize, total, columns, event_of_key(keyval)),
        ensures
            next@ == next_index(self@ as int, total as int, columns as int, event_of_key(keyval)),
    {
        let new = next_focus_index(self.0, total, columns, key_to_event(keyval));
        FocusState(new)
    }
}

impl Default for FocusState {
    fn default() -> (state: Self)
        ensures
            state@ == 0,
    {
        Self::new()
    }
}

} // verus!
