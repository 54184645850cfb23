//! One terminal session: its size, its scroll position and its screen state.
//!
//! The pseudo-terminal itself (the child process, the writer, the thread
//! that reads its output) is owned by the caller. A session is told what the
//! pseudo-terminal produced or answered and keeps the screen in step.

use vstd::prelude::*;
use crate::terminal::keys::{encode_char, encode_key, key_bytes, KeyCode, KeyModifiers};
use crate::terminal::screen::{
    screen_capacity, screen_history, screen_input, screen_new, screen_offset, screen_process,
    screen_scrollback, screen_set_scrollback, screen_set_size, screen_settled, screen_size,
    MAX_SCREEN_COLS, MIN_SCREEN_COLS, MIN_SCREEN_ROWS,
};
use vstd::utf8::encode_scalar;

verus! {

/// The number of rows of history every session keeps.
pub const SCROLLBACK_LINES: usize = 1000;

/// What can go wrong with a session. None of these is fatal to the host.
#[derive(Debug, Clone, Copy, PartialEq, Eq, Structural)]
pub enum TerminalError {
    /// The pseudo-terminal could not be allocated or the shell not started.
    SpawnFailed,
    /// Writing to the pseudo-terminal failed: the child has gone.
    WriteFailed,
    /// The pseudo-terminal refused the new size.
    ResizeFailed,
}

/// A terminal session.
pub struct Terminal {
    /// The screen state, fed with the child's output.
    pub parser: vt100::Parser,
    /// Current width in columns.
    pub cols: u16,
    /// Current height in rows.
    pub rows: u16,
    /// Scroll offset from the live tail, as of the last scroll operation
    /// (0 = following live output).
    pub scroll_offset: usize,
}

/// The mathematical content of a session.
pub struct TerminalView {
    pub cols: u16,
    pub rows: u16,
    /// The recorded scroll offset.
    pub scroll_offset: nat,
    /// The scroll position of the screen state.
    pub offset: nat,
    /// The rows of history the screen state holds.
    pub history: nat,
    /// The most rows of history the screen state will ever hold.
    pub capacity: nat,
    /// Every byte of output applied to the screen state, in order.
    pub input: Seq<u8>,
}

impl TerminalView {
    /// A session that has just been opened: empty screen, live view.
    pub open spec fn fresh(cols: u16, rows: u16) -> TerminalView {
        TerminalView {
            cols,
            rows,
            scroll_offset: 0,
            offset: 0,
            history: 0,
            capacity: SCROLLBACK_LINES as nat,
            input: Seq::empty(),
        }
    }

    /// The scroll position is within the history held, and that within the
    /// configured capacity; the session has a real size.
    pub open spec fn valid(self) -> bool {
        &&& self.cols >= 1
        &&& self.rows >= 1
        &&& self.offset <= self.history
        &&& self.history <= self.capacity
        &&& self.capacity == SCROLLBACK_LINES
    }

    /// The offset reached by scrolling `lines` further into history.
    pub open spec fn offset_up(self, lines: nat) -> nat {
        if self.offset + lines <= self.history {
            self.offset + lines
        } else {
            self.history
        }
    }

    /// The offset reached by scrolling `lines` back toward live output.
    pub open spec fn offset_down(self, lines: nat) -> nat {
        if lines <= self.offset {
            (self.offset - lines) as nat
        } else {
            0
        }
    }

    /// The session after scrolling to `offset`.
    pub open spec fn scrolled_to(self, offset: nat) -> TerminalView {
        TerminalView { offset, scroll_offset: offset, ..self }
    }

    /// The session after `scroll_up(lines)`.
    pub open spec fn scroll_up(self, lines: nat) -> TerminalView {
        self.scrolled_to(self.offset_up(lines))
    }

    /// The session after `scroll_down(lines)`.
    pub open spec fn scroll_down(self, lines: nat) -> TerminalView {
        self.scrolled_to(self.offset_down(lines))
    }

    /// The session after `scroll_to_bottom()`.
    pub open spec fn scroll_to_bottom(self) -> TerminalView {
        self.scrolled_to(0)
    }

    /// Whether a request for `cols` by `rows` is a real size. A zero width
    /// or height means the pane is not laid out yet.
    pub open spec fn is_laid_out(cols: u16, rows: u16) -> bool {
        cols > 0 && rows > 0
    }

    /// Whether a request for `cols` by `rows` would change the session: it
    /// is a real size, and not the size the session has.
    pub open spec fn needs_resize(self, cols: u16, rows: u16) -> bool {
        Self::is_laid_out(cols, rows) && (cols != self.cols || rows != self.rows)
    }

    /// Whether the screen of the session can take the size `cols` by
    /// `rows` as it is: a screen can grow, but not shrink.
    pub open spec fn keeps_screen(self, cols: u16, rows: u16) -> bool {
        screen_rows(rows) >= screen_rows(self.rows) && screen_cols(cols) >= screen_cols(self.cols)
    }

    /// The session after `resize(cols, rows, ..)`, where `pty_resized` says
    /// whether the pseudo-terminal took the new size.
    ///
    /// A request for no real size or for the size the session has, or one
    /// that the pseudo-terminal refused, changes nothing. Otherwise the
    /// session has the new size;
    /// its screen is the old one if that could grow to the size, and a
    /// fresh one if it would have had to shrink.
    pub open spec fn resize(self, cols: u16, rows: u16, pty_resized: bool) -> TerminalView {
        if self.needs_resize(cols, rows) && pty_resized {
            if self.keeps_screen(cols, rows) {
                TerminalView { cols, rows, ..self }
            } else {
                Self::fresh(cols, rows)
            }
        } else {
            self
        }
    }
}

/// The rows of the screen of a session that is `rows` high: as many, but
/// never fewer than a screen needs.
pub open spec fn screen_rows(rows: u16) -> u16 {
    if rows < MIN_SCREEN_ROWS {
        MIN_SCREEN_ROWS
    } else {
        rows
    }
}

/// The columns of the screen of a session that is `cols` wide: as many,
/// but never fewer than a screen needs nor more than it can have.
pub open spec fn screen_cols(cols: u16) -> u16 {
    if cols < MIN_SCREEN_COLS {
        MIN_SCREEN_COLS
    } else if cols > MAX_SCREEN_COLS {
        MAX_SCREEN_COLS
    } else {
        cols
    }
}

/// The rows of the screen of a session that is `rows` high.
pub fn rows_of_screen(rows: u16) -> (r: u16)
    ensures
        r == screen_rows(rows),
{
    if rows < MIN_SCREEN_ROWS {
        MIN_SCREEN_ROWS
    } else {
        rows
    }
}

/// The columns of the screen of a session that is `cols` wide.
pub fn cols_of_screen(cols: u16) -> (c: u16)
    ensures
        c == screen_cols(cols),
{
    if cols < MIN_SCREEN_COLS {
        MIN_SCREEN_COLS
    } else if cols > MAX_SCREEN_COLS {
        MAX_SCREEN_COLS
    } else {
        cols
    }
}

/// All the bytes of `chunks`, in order.
pub open spec fn joined(chunks: Seq<Vec<u8>>) -> Seq<u8>
    decreases chunks.len(),
{
    if chunks.len() == 0 {
        Seq::empty()
    } else {
        joined(chunks.drop_last()) + chunks.last()@
    }
}

impl View for Terminal {
    type V = TerminalView;

    open spec fn view(&self) -> TerminalView {
        TerminalView {
            cols: self.cols,
            rows: self.rows,
            scroll_offset: self.scroll_offset as nat,
            offset: screen_offset(self.parser),
            history: screen_history(self.parser),
            capacity: screen_capacity(self.parser),
            input: screen_input(self.parser),
        }
    }
}

impl Terminal {
    /// The view is valid, and the screen state is settled and has the
    /// size that goes with the session's size.
    pub open spec fn wf(&self) -> bool {
        &&& self@.valid()
        &&& screen_settled(self.parser)
        &&& screen_size(self.parser) == (screen_rows(self.rows), screen_cols(self.cols))
    }

    /// Makes the state of a freshly opened session of the given size.
    ///
    /// A session cannot be opened with a zero width or height.
    pub fn new(cols: u16, rows: u16) -> (r: Result<Terminal, TerminalError>)
        ensures
            r.is_ok() <==> TerminalView::is_laid_out(cols, rows),
            r matches Ok(t) ==> t.wf() && t@ == TerminalView::fresh(cols, rows),
            r matches Err(e) ==> e == TerminalError::SpawnFailed,
    {
        if cols == 0 || rows == 0 {
            return Err(TerminalError::SpawnFailed);
        }
        let parser = screen_new(rows_of_screen(rows), cols_of_screen(cols), SCROLLBACK_LINES);
        Ok(Terminal { parser, cols, rows, scroll_offset: 0 })
    }

    /// Applies the output the child produced since the last call, chunk by
    /// chunk in the order given. An empty list is fine and changes nothing
    /// but is still a success: a child that has exited simply has no more
    /// output.
    ///
    /// The size and the recorded scroll offset stay. The scroll position of
    /// the screen state may move with the output, within the history held:
    /// rows that scroll off while the view is scrolled back push it back
    /// with them.
    pub fn read_output(&mut self, chunks: &Vec<Vec<u8>>) -> (r: Result<(), TerminalError>)
        requires
            old(self).wf(),
        ensures
            r.is_ok(),
            final(self).wf(),
            final(self)@.input == old(self)@.input + joined(chunks@),
            final(self).cols == old(self).cols,
            final(self).rows == old(self).rows,
            final(self).scroll_offset == old(self).scroll_offset,
            chunks@.len() == 0 ==> *final(self) == *old(self),
    {
        let mut i: usize = 0;
        while i < chunks.len()
            invariant
                i <= chunks.len(),
                self.wf(),
                self@.input == old(self)@.input + joined(chunks@.take(i as int)),
                self.cols == old(self).cols,
                self.rows == old(self).rows,
                self.scroll_offset == old(self).scroll_offset,
                i == 0 ==> *self == *old(self),
            decreases chunks.len() - i,
        {
            proof {
                let next = chunks@.take(i + 1);
                assert(next.drop_last() =~= chunks@.take(i as int));
            }
            screen_process(&mut self.parser, chunks[i].as_slice());
            i += 1;
        }
        proof {
            assert(chunks@.take(chunks@.len() as int) =~= chunks@);
        }
        Ok(())
    }

    /// The bytes to write to the child for one typed character.
    pub fn send_char(&self, c: char) -> (bytes: Vec<u8>)
        ensures
            bytes@ == encode_scalar(c as u32),
    {
        encode_char(c)
    }

    /// The bytes to write to the child for a key press. A key with no
    /// encoding gives `None`: nothing is written, and that is no error.
    pub fn send_key(&self, key: KeyCode, modifiers: KeyModifiers) -> (bytes: Option<Vec<u8>>)
        ensures
            bytes.is_some() == key_bytes(key, modifiers).is_some(),
            bytes matches Some(v) ==> key_bytes(key, modifiers) == Some(v@),
    {
        encode_key(key, modifiers)
    }

    /// Whether a resize to `cols` by `rows` would change this session, so
    /// that it is worth putting to the pseudo-terminal. A zero width or
    /// height would not, and neither would the size the session has.
    pub fn needs_resize(&self, cols: u16, rows: u16) -> (needed: bool)
        ensures
            needed == self@.needs_resize(cols, rows),
    {
        cols > 0 && rows > 0 && (cols != self.cols || rows != self.rows)
    }

    /// Takes a new size, after the pseudo-terminal was asked to take it.
    ///
    /// A zero width or height changes nothing and succeeds. Otherwise
    /// `pty_resized` tells whether the pseudo-terminal took the size: if it
    /// did not, the session stays as it was and reports `ResizeFailed`; if
    /// it did, the session and its screen state take the size too. A
    /// session that has the size already stays as it is, screen state
    /// included.
    ///
    /// The screen state can only grow in place. A session that gets
    /// smaller in either direction starts over with a blank screen of the
    /// new size, in live view, on which the child then draws again: a grid
    /// that is cut in place may fail on the output that follows.
    pub fn resize(&mut self, cols: u16, rows: u16, pty_resized: bool) -> (r: Result<
        (),
        TerminalError,
    >)
        requires
            old(self).wf(),
        ensures
            final(self).wf(),
            final(self)@ == old(self)@.resize(cols, rows, pty_resized),
            r.is_err() <==> TerminalView::is_laid_out(cols, rows) && !pty_resized,
            r matches Err(e) ==> e == TerminalError::ResizeFailed,
            !(old(self)@.needs_resize(cols, rows) && pty_resized) ==> *final(self) == *old(self),
            old(self)@.needs_resize(cols, rows) && pty_resized && old(self)@.keeps_screen(cols, rows)
                ==> final(self).scroll_offset == old(self).scroll_offset,
    {
        if cols == 0 || rows == 0 {
            return Ok(());
        }
        if !pty_resized {
            return Err(TerminalError::ResizeFailed);
        }
        if cols == self.cols && rows == self.rows {
            return Ok(());
        }
        let new_rows = rows_of_screen(rows);
        let new_cols = cols_of_screen(cols);
        let old_rows = rows_of_screen(self.rows);
        let old_cols = cols_of_screen(self.cols);
        if new_rows >= old_rows && new_cols >= old_cols {
            if new_rows != old_rows || new_cols != old_cols {
                screen_set_size(&mut self.parser, new_rows, new_cols);
            }
        } else {
            self.parser = screen_new(new_rows, new_cols, SCROLLBACK_LINES);
            self.scroll_offset = 0;
        }
        self.cols = cols;
        self.rows = rows;
        Ok(())
    }

    /// The screen state, for rendering.
    pub fn screen(&self) -> (parser: &vt100::Parser)
        ensures
            *parser == self.parser,
    {
        &self.parser
    }

    /// Scrolls `lines` rows further into history, stopping at the oldest
    /// row held.
    pub fn scroll_up(&mut self, lines: usize)
        requires
            old(self).wf(),
        ensures
            final(self).wf(),
            final(self)@ == old(self)@.scroll_up(lines as nat),
    {
        let current = screen_scrollback(&self.parser);
        let new_offset = current.saturating_add(lines);
        screen_set_scrollback(&mut self.parser, new_offset);
        self.scroll_offset = screen_scrollback(&self.parser);
    }

    /// Scrolls `lines` rows back toward live output, stopping there.
    pub fn scroll_down(&mut self, lines: usize)
        requires
            old(self).wf(),
        ensures
            final(self).wf(),
            final(self)@ == old(self)@.scroll_down(lines as nat),
    {
        let current = screen_scrollback(&self.parser);
        let new_offset = current.saturating_sub(lines);
        screen_set_scrollback(&mut self.parser, new_offset);
        self.scroll_offset = new_offset;
    }

    /// Returns to live output.
    pub fn scroll_to_bottom(&mut self)
        requires
            old(self).wf(),
        ensures
            final(self).wf(),
            final(self)@ == old(self)@.scroll_to_bottom(),
    {
        screen_set_scrollback(&mut self.parser, 0);
        self.scroll_offset = 0;
    }

    /// Whether the view is scrolled into history.
    pub fn is_scrolled_back(&self) -> (scrolled: bool)
        ensures
            scrolled == (self@.offset > 0),
    {
        screen_scrollback(&self.parser) > 0
    }

    /// The configured scrollback capacity, not the rows currently held.
    pub fn max_scrollback(&self) -> (max: usize)
        ensures
            max == SCROLLBACK_LINES,
    {
        SCROLLBACK_LINES
    }

    /// The current scroll position of the screen state.
    pub fn current_scrollback(&self) -> (offset: usize)
        ensures
            offset == self@.offset,
    {
        screen_scrollback(&self.parser)
    }
}

/// Output that is applied in two parts reaches the screen as the same
/// bytes, in the same order, as output that is applied in one: between
/// two reads nothing is lost and nothing changes places.
pub proof fn lemma_joined_in_parts(first: Seq<Vec<u8>>, second: Seq<Vec<u8>>)
    ensures
        joined(first + second) == joined(first) + joined(second),
    decreases second.len(),
{
    if second.len() > 0 {
        let all = first + second;
        assert(all.drop_last() =~= first + second.drop_last());
        lemma_joined_in_parts(first, second.drop_last());
    }
}

/// The bytes of a list of chunks are the bytes of its chunks, each chunk
/// whole and in its place: chunk `i` stands in the joined bytes right
/// behind the chunks before it.
pub proof fn lemma_joined_keeps_chunks(chunks: Seq<Vec<u8>>, i: int)
    requires
        0 <= i < chunks.len(),
    ensures
        joined(chunks.take(i)).len() + chunks[i]@.len() <= joined(chunks).len(),
        joined(chunks).subrange(
            joined(chunks.take(i)).len() as int,
            (joined(chunks.take(i)).len() + chunks[i]@.len()) as int,
        ) == chunks[i]@,
{
    let before = chunks.take(i);
    let rest = chunks.skip(i);
    let one = seq![chunks[i]];
    assert(chunks =~= before + rest);
    assert(rest =~= one + rest.drop_first());
    lemma_joined_in_parts(before, rest);
    lemma_joined_in_parts(one, rest.drop_first());
    assert(joined(one) =~= chunks[i]@) by {
        assert(joined(one.drop_last()) =~= Seq::<u8>::empty());
    }
}

/// Scrolling up by `lines` and then down by `lines` returns to the offset
/// one started from, provided the history held is deep enough for the
/// whole way up.
pub proof fn lemma_scroll_round_trip(v: TerminalView, lines: nat)
    requires
        v.valid(),
        v.offset + lines <= v.history,
    ensures
        v.scroll_up(lines).scroll_down(lines).offset == v.offset,
        v.scroll_up(lines).scroll_down(lines).scroll_offset == v.offset,
{
}

/// However far one scrolls up, scrolling down by the same amount never
/// ends above the starting offset, and the offset always stays within
/// the history held and the capacity.
pub proof fn lemma_scroll_round_trip_clamped(v: TerminalView, lines: nat)
    requires
        v.valid(),
    ensures
        v.scroll_up(lines).scroll_down(lines).offset <= v.offset,
        v.scroll_up(lines).valid(),
        v.scroll_up(lines).scroll_down(lines).valid(),
        v.scroll_up(lines).offset <= v.capacity,
{
}

/// A resize to zero columns or zero rows leaves every part of a session
/// as it was, whatever the pseudo-terminal answered.
pub proof fn lemma_zero_resize_is_noop(v: TerminalView, cols: u16, rows: u16, pty_resized: bool)
    requires
        cols == 0 || rows == 0,
    ensures
        v.resize(cols, rows, pty_resized) == v,
{
}

/// A resize never leaves a session with a size other than the one it had
/// or the one asked for, and it keeps a valid session valid.
pub proof fn lemma_resize_keeps_valid(v: TerminalView, cols: u16, rows: u16, pty_resized: bool)
    requires
        v.valid(),
    ensures
        v.resize(cols, rows, pty_resized).valid(),
        ({
            let after = v.resize(cols, rows, pty_resized);
            (after.cols == v.cols && after.rows == v.rows) || (after.cols == cols && after.rows
                == rows)
        }),
{
}

/// A session that grows in both directions, or stays as it is in one,
/// keeps all that its screen holds: the output applied, the history and
/// the scroll position.
pub proof fn lemma_growing_keeps_the_screen(v: TerminalView, cols: u16, rows: u16)
    requires
        v.valid(),
        cols >= v.cols,
        rows >= v.rows,
    ensures
        v.resize(cols, rows, true) == (TerminalView { cols, rows, ..v }),
{
}

} // verus!
