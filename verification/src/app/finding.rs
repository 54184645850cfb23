//! What a key press does while the search bar is open.

use vstd::prelude::*;
use crate::app::find::{found_next, found_prev, replaced_all, replaced_current, searched};
use crate::app::App;
use crate::input::keyboard::KeyEvent;
use crate::search::SearchState;
use crate::terminal::keys::KeyCode;

verus! {

/// What a key press means to the search bar.
#[derive(Debug, Clone, Copy, PartialEq, Eq, Structural)]
pub enum SearchStep {
    /// Close the bar.
    Close,
    /// Move the focus between the find field and the replace field.
    ToggleFocus,
    /// Replace the current match and go on.
    ReplaceCurrent,
    /// Replace every match.
    ReplaceAll,
    /// Go to the next match.
    FindNext,
    /// Go to the previous match.
    FindPrev,
    /// Leave replace mode.
    FindMode,
    /// Enter replace mode.
    ReplaceMode,
    /// Give the find field the focus.
    FocusFind,
    /// Give the replace field the focus.
    FocusReplace,
    /// Take the last character off the query, and search.
    EraseQuery,
    /// Take the last character off the replacement.
    EraseReplacement,
    /// Put a character behind the query, and search.
    TypeQuery(char),
    /// Put a character behind the replacement.
    TypeReplacement(char),
    /// Do nothing.
    Nothing,
}

/// Whether typing goes to the replacement rather than to the query.
pub open spec fn replacement_focused(search: SearchState) -> bool {
    search.replace_mode && search.replace_focus == 1
}

/// What a key press means to the search bar in its present state.
pub open spec fn search_step(search: SearchState, key: KeyEvent) -> SearchStep {
    let ctrl = key.modifiers.control;
    let shift = key.modifiers.shift;
    match key.code {
        KeyCode::Esc => SearchStep::Close,
        KeyCode::Tab => SearchStep::ToggleFocus,
        KeyCode::Enter => if search.replace_mode {
            SearchStep::ReplaceCurrent
        } else {
            SearchStep::FindNext
        },
        KeyCode::Backspace => if replacement_focused(search) {
            SearchStep::EraseReplacement
        } else {
            SearchStep::EraseQuery
        },
        KeyCode::Char(c) => if ctrl {
            if c == 'g' {
                SearchStep::FindNext
            } else if c == 'G' {
                SearchStep::FindPrev
            } else if c == 'a' || c == 'A' {
                if search.replace_mode {
                    SearchStep::ReplaceAll
                } else {
                    SearchStep::Nothing
                }
            } else if c == 'f' {
                SearchStep::FindMode
            } else if c == 'h' {
                SearchStep::ReplaceMode
            } else {
                SearchStep::Nothing
            }
        } else if replacement_focused(search) {
            SearchStep::TypeReplacement(c)
        } else {
            SearchStep::TypeQuery(c)
        },
        KeyCode::Up => if search.replace_mode {
            SearchStep::FocusFind
        } else if shift {
            SearchStep::FindPrev
        } else {
            SearchStep::Nothing
        },
        KeyCode::Down => if search.replace_mode {
            SearchStep::FocusReplace
        } else {
            SearchStep::FindNext
        },
        KeyCode::F(n) => if n == 3 {
            if shift {
                SearchStep::FindPrev
            } else {
                SearchStep::FindNext
            }
        } else {
            SearchStep::Nothing
        },
        _ => SearchStep::Nothing,
    }
}

/// `text` without its last character, if it has one.
pub open spec fn erased(text: Seq<char>) -> Seq<char> {
    if text.len() > 0 {
        text.drop_last()
    } else {
        text
    }
}

/// Whether `post` is `pre` but for its search state, which is `search`.
pub open spec fn with_search(pre: App, search: SearchState, post: App) -> bool {
    post == (App { search, ..pre })
}

/// Whether `post` is what a step of the search bar makes of `pre`.
pub open spec fn search_stepped(step: SearchStep, pre: App, post: App) -> bool {
    match step {
        SearchStep::Close => {
            &&& post == (App { search: post.search, ..pre })
            &&& !post.search.active
            &&& post.search.matches@.len() == 0
            &&& post.search.current_match.is_none()
            &&& post.search.query == pre.search.query
            &&& post.search.replace_text == pre.search.replace_text
            &&& post.search.case_sensitive == pre.search.case_sensitive
            &&& post.search.use_regex == pre.search.use_regex
            &&& post.search.replace_mode == pre.search.replace_mode
            &&& post.search.replace_focus == pre.search.replace_focus
        },
        SearchStep::ToggleFocus => with_search(
            pre,
            SearchState {
                replace_focus: if pre.search.replace_focus == 0 {
                    1
                } else {
                    0
                },
                ..pre.search
            },
            post,
        ),
        SearchStep::ReplaceCurrent => replaced_current(pre, post),
        SearchStep::ReplaceAll => replaced_all(pre, post),
        SearchStep::FindNext => found_next(pre, post),
        SearchStep::FindPrev => found_prev(pre, post),
        SearchStep::FindMode => with_search(
            pre,
            SearchState { replace_mode: false, ..pre.search },
            post,
        ),
        SearchStep::ReplaceMode => with_search(
            pre,
            SearchState { replace_mode: true, ..pre.search },
            post,
        ),
        SearchStep::FocusFind => with_search(
            pre,
            SearchState { replace_focus: 0, ..pre.search },
            post,
        ),
        SearchStep::FocusReplace => with_search(
            pre,
            SearchState { replace_focus: 1, ..pre.search },
            post,
        ),
        SearchStep::EraseQuery => exists|mid: App|
            {
                &&& mid.search.query@ == erased(pre.search.query@)
                &&& with_search(pre, SearchState { query: mid.search.query, ..pre.search }, mid)
                &&& #[trigger] searched(mid, post)
            },
        SearchStep::TypeQuery(c) => exists|mid: App|
            {
                &&& mid.search.query@ == pre.search.query@.push(c)
                &&& with_search(pre, SearchState { query: mid.search.query, ..pre.search }, mid)
                &&& #[trigger] searched(mid, post)
            },
        SearchStep::EraseReplacement => {
            &&& post.search.replace_text@ == erased(pre.search.replace_text@)
            &&& with_search(
                pre,
                SearchState { replace_text: post.search.replace_text, ..pre.search },
                post,
            )
        },
        SearchStep::TypeReplacement(c) => {
            &&& post.search.replace_text@ == pre.search.replace_text@.push(c)
            &&& with_search(
                pre,
                SearchState { replace_text: post.search.replace_text, ..pre.search },
                post,
            )
        },
        SearchStep::Nothing => post == pre,
    }
}

/// What a key press means to the search bar in its present state.
pub fn decide_search_key(search: &SearchState, key: KeyEvent) -> (step: SearchStep)
    ensures
        step == search_step(*search, key),
{
    let ctrl = key.modifiers.control;
    let shift = key.modifiers.shift;
    let replacement = search.replace_mode && search.replace_focus == 1;
    match key.code {
        KeyCode::Esc => SearchStep::Close,
        KeyCode::Tab => SearchStep::ToggleFocus,
        KeyCode::Enter => if search.replace_mode {
            SearchStep::ReplaceCurrent
        } else {
            SearchStep::FindNext
        },
        KeyCode::Backspace => if replacement {
            SearchStep::EraseReplacement
        } else {
            SearchStep::EraseQuery
        },
        KeyCode::Char(c) => if ctrl {
            if c == 'g' {
                SearchStep::FindNext
            } else if c == 'G' {
                SearchStep::FindPrev
            } else if c == 'a' || c == 'A' {
                if search.replace_mode {
                    SearchStep::ReplaceAll
                } else {
                    SearchStep::Nothing
                }
            } else if c == 'f' {
                SearchStep::FindMode
            } else if c == 'h' {
                SearchStep::ReplaceMode
            } else {
                SearchStep::Nothing
            }
        } else if replacement {
            SearchStep::TypeReplacement(c)
        } else {
            SearchStep::TypeQuery(c)
        },
        KeyCode::Up => if search.replace_mode {
            SearchStep::FocusFind
        } else if shift {
            SearchStep::FindPrev
        } else {
            SearchStep::Nothing
        },
        KeyCode::Down => if search.replace_mode {
            SearchStep::FocusReplace
        } else {
            SearchStep::FindNext
        },
        KeyCode::F(n) => if n == 3 {
            if shift {
                SearchStep::FindPrev
            } else {
                SearchStep::FindNext
            }
        } else {
            SearchStep::Nothing
        },
        _ => SearchStep::Nothing,
    }
}

impl App {
    /// Handle keyboard events for the search bar
    pub fn handle_search_key(&mut self, key: KeyEvent)
        requires
            old(self).wf(),
        ensures
            final(self).wf(),
            search_stepped(search_step(old(self).search, key), *old(self), *final(self)),
    {
        let step = decide_search_key(&self.search, key);
        match step {
            SearchStep::Close => {
                self.search.close();
            },
            SearchStep::ToggleFocus => {
                self.search.toggle_replace_focus();
            },
            SearchStep::ReplaceCurrent => {
                self.replace_current();
            },
            SearchStep::ReplaceAll => {
                self.replace_all();
            },
            SearchStep::FindNext => {
                self.find_next();
            },
            SearchStep::FindPrev => {
                self.find_prev();
            },
            SearchStep::FindMode => {
                self.search.replace_mode = false;
            },
            SearchStep::ReplaceMode => {
                self.search.replace_mode = true;
            },
            SearchStep::FocusFind => {
                self.search.replace_focus = 0;
            },
            SearchStep::FocusReplace => {
                self.search.replace_focus = 1;
            },
            SearchStep::EraseQuery => {
                self.search.backspace();
                self.do_search();
            },
            SearchStep::TypeQuery(c) => {
                self.search.input_char(c);
                self.do_search();
            },
            SearchStep::EraseReplacement => {
                self.search.replace_backspace();
            },
            SearchStep::TypeReplacement(c) => {
                self.search.replace_input_char(c);
            },
            SearchStep::Nothing => {},
        }
    }
}

} // verus!
