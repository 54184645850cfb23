//! The screen state of a session: a `vt100::Parser`, seen through the few
//! facts the session logic relies on.
//!
//! Nothing in this file is proved. Each function below calls one method of
//! `vt100` and states what that method's source shows.

use vstd::prelude::*;

verus! {

/// `vt100::Parser`: a terminal screen that is fed with bytes. The library
/// sees nothing inside it.
#[verifier::external_type_specification]
#[verifier::external_body]
pub struct ExParser(vt100::Parser);

/// The bytes a screen has consumed since it was made, oldest first.
pub uninterp spec fn screen_input(p: vt100::Parser) -> Seq<u8>;

/// The grid size of a screen, as `(rows, cols)`: what `Screen::size` reports.
pub uninterp spec fn screen_size(p: vt100::Parser) -> (u16, u16);

/// The scrollback position of a screen: what `Screen::scrollback` reports.
/// Zero means the live screen is in view.
pub uninterp spec fn screen_offset(p: vt100::Parser) -> nat;

/// The number of rows that have scrolled off the top of the grid in view and
/// are still held: the bound to which `Parser::set_scrollback` clamps.
pub uninterp spec fn screen_history(p: vt100::Parser) -> nat;

/// The scrollback limit a screen was made with.
pub uninterp spec fn screen_capacity(p: vt100::Parser) -> nat;

/// Whether a screen is in a state from which it can consume any output.
///
/// That is the state `vt100` keeps a screen in as long as its grid is only
/// made and fed: both grids have at least `MIN_SCREEN_ROWS` rows, at least
/// `MIN_SCREEN_COLS` and at most `MAX_SCREEN_COLS` columns, every row of a
/// grid is as
/// wide as the grid, the first half of every wide character is followed by
/// its second half, and the scroll region, the cursor and the saved cursor
/// of each grid lie inside it (the column may be one past the last).
pub uninterp spec fn screen_settled(p: vt100::Parser) -> bool;

/// The fewest rows of a screen that can consume any output: on a single
/// row a line that wraps has no row above the cursor to mark.
pub const MIN_SCREEN_ROWS: u16 = 2;

/// The fewest columns of a screen that can consume any output: the width
/// of the widest character there is. `vt100` takes the width of a
/// character from `unicode-width`, which gives one character a width of
/// three, and subtracts it from the columns.
pub const MIN_SCREEN_COLS: u16 = 3;

/// The most columns of a screen that can consume any output: the cursor
/// column is a `u16`, and a tab adds up to eight to it.
pub const MAX_SCREEN_COLS: u16 = 65527;

/// `vt100::Parser::new`: an empty screen of the given size, in live view,
/// that will hold at most `scrollback_len` rows of history.
///
/// The size is held within the limits of a settled screen, and a new
/// screen of such a size is settled: its rows are blank and both cursors
/// are at the top left.
#[verifier::external_body]
pub(crate) fn screen_new(rows: u16, cols: u16, scrollback_len: usize) -> (p: vt100::Parser)
    requires
        rows >= MIN_SCREEN_ROWS,
        MIN_SCREEN_COLS <= cols <= MAX_SCREEN_COLS,
    ensures
        screen_settled(p),
        screen_input(p) == Seq::<u8>::empty(),
        screen_size(p) == (rows, cols),
        screen_offset(p) == 0,
        screen_history(p) == 0,
        screen_capacity(p) == scrollback_len,
{
    vt100::Parser::new(rows, cols, scrollback_len)
}

/// `vt100::Parser::process`: the screen consumes `bytes` in order.
///
/// The screen has to be settled: on a grid that was cut, `vt100` looks for
/// the second half of a wide character, or for the row of a restored
/// cursor, where there is none, and fails. A settled screen stays settled
/// whatever it consumes.
///
/// Processing never resizes the grid and never changes the limit. It may
/// move the scrollback position (new rows push the view back while it is
/// scrolled, and the alternate screen has no history), but the position
/// stays within the rows held, and those within the limit.
#[verifier::external_body]
pub(crate) fn screen_process(p: &mut vt100::Parser, bytes: &[u8])
    requires
        screen_settled(*old(p)),
    ensures
        screen_settled(*final(p)),
        screen_input(*final(p)) == screen_input(*old(p)) + bytes@,
        screen_size(*final(p)) == screen_size(*old(p)),
        screen_capacity(*final(p)) == screen_capacity(*old(p)),
        screen_offset(*final(p)) <= screen_history(*final(p)) <= screen_capacity(*final(p)),
{
    p.process(bytes)
}

/// `vt100::Parser::set_size`, for a size that is no smaller than the
/// present one in either direction: both grids take the new size; the held
/// history, the scrollback position and the consumed input are untouched.
///
/// Growing adds blank cells to the right and blank rows below and moves
/// nothing else, so a settled screen stays settled. Shrinking in place
/// does not keep it so (it cuts rows without looking at what they hold and
/// leaves the saved cursors where they were), and is left out.
#[verifier::external_body]
pub(crate) fn screen_set_size(p: &mut vt100::Parser, rows: u16, cols: u16)
    requires
        screen_settled(*old(p)),
        rows >= screen_size(*old(p)).0,
        screen_size(*old(p)).1 <= cols <= MAX_SCREEN_COLS,
    ensures
        screen_settled(*final(p)),
        screen_size(*final(p)) == (rows, cols),
        screen_input(*final(p)) == screen_input(*old(p)),
        screen_offset(*final(p)) == screen_offset(*old(p)),
        screen_history(*final(p)) == screen_history(*old(p)),
        screen_capacity(*final(p)) == screen_capacity(*old(p)),
{
    p.set_size(rows, cols)
}

/// `vt100::Parser::set_scrollback`: the position becomes `rows`, clamped to
/// the number of rows held; nothing else changes.
#[verifier::external_body]
pub(crate) fn screen_set_scrollback(p: &mut vt100::Parser, rows: usize)
    ensures
        screen_settled(*final(p)) == screen_settled(*old(p)),
        screen_offset(*final(p)) == if rows <= screen_history(*old(p)) {
            rows as nat
        } else {
            screen_history(*old(p))
        },
        screen_input(*final(p)) == screen_input(*old(p)),
        screen_size(*final(p)) == screen_size(*old(p)),
        screen_history(*final(p)) == screen_history(*old(p)),
        screen_capacity(*final(p)) == screen_capacity(*old(p)),
{
    p.set_scrollback(rows)
}

/// `vt100::Screen::scrollback`, through `Parser::screen`: the current
/// scrollback position, which never exceeds the rows held, nor those the
/// limit.
#[verifier::external_body]
pub(crate) fn screen_scrollback(p: &vt100::Parser) -> (offset: usize)
    ensures
        offset == screen_offset(*p),
        offset <= screen_history(*p) <= screen_capacity(*p),
{
    p.screen().scrollback()
}

} // verus!
