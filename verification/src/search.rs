//! Search state of the editor: the query, the matches found and the one
//! that is current.

use vstd::prelude::*;
use crate::editor::document::Document;
use crate::editor::rope::{line_count, line_start};
use crate::text::{chars_of, decimal, is_at, lowercase, occurs_at, push_decimal, to_lowercase};

verus! {

/// Represents a search match in the document
#[derive(Debug, Clone, Copy, PartialEq, Eq, Structural)]
pub struct SearchMatch {
    /// Line number (0-indexed)
    pub line: usize,
    /// Start column (0-indexed)
    pub start_col: usize,
    /// End column (exclusive, 0-indexed)
    pub end_col: usize,
}

impl SearchMatch {
    /// Whether `(line, col)` lies inside this match.
    pub open spec fn covers(self, line: usize, col: usize) -> bool {
        self.line == line && self.start_col <= col && col < self.end_col
    }

    /// Whether this match starts strictly after `(line, col)`.
    pub open spec fn starts_after(self, line: usize, col: usize) -> bool {
        self.line > line || (self.line == line && self.start_col > col)
    }

    /// Whether this match starts strictly before `(line, col)`.
    pub open spec fn starts_before(self, line: usize, col: usize) -> bool {
        self.line < line || (self.line == line && self.start_col < col)
    }
}

/// Search state for the editor
#[derive(Debug, Clone)]
pub struct SearchState {
    /// Current search query
    pub query: String,
    /// Whether search is case-sensitive
    pub case_sensitive: bool,
    /// Whether to use regex
    pub use_regex: bool,
    /// Whether search bar is visible/active
    pub active: bool,
    /// All matches in the current document
    pub matches: Vec<SearchMatch>,
    /// Index of current match (for next/prev navigation)
    pub current_match: Option<usize>,
    /// Whether we're in replace mode
    pub replace_mode: bool,
    /// Replacement text
    pub replace_text: String,
    /// Which field has the focus in replace mode: 0 = find, 1 = replace
    pub replace_focus: usize,
}

/// The index that `find_next_from` settles on: the first match that starts
/// after the position, or the very first match if none does.
pub open spec fn is_next_from(matches: Seq<SearchMatch>, line: usize, col: usize, k: int) -> bool {
    &&& 0 <= k < matches.len()
    &&& forall|j: int| 0 <= j < k ==> !(#[trigger] matches[j]).starts_after(line, col)
    &&& (matches[k].starts_after(line, col) || (k == 0 && forall|j: int|
        0 <= j < matches.len() ==> !(#[trigger] matches[j]).starts_after(line, col)))
}

/// The index that `find_prev_from` settles on: the last match that starts
/// before the position, or the very last match if none does.
pub open spec fn is_prev_from(matches: Seq<SearchMatch>, line: usize, col: usize, k: int) -> bool {
    &&& 0 <= k < matches.len()
    &&& forall|j: int| k < j < matches.len() ==> !(#[trigger] matches[j]).starts_before(line, col)
    &&& (matches[k].starts_before(line, col) || (k == matches.len() - 1 && forall|j: int|
        0 <= j < matches.len() ==> !(#[trigger] matches[j]).starts_before(line, col)))
}

/// The matches of `needle` in line number `line`, whose text is `hay`,
/// that start before column `upto`, in the order of their columns. They
/// may overlap.
pub open spec fn matches_in_line(line: usize, hay: Seq<char>, needle: Seq<char>, upto: int) -> Seq<
    SearchMatch,
>
    decreases upto,
{
    if upto <= 0 {
        Seq::empty()
    } else {
        let before = matches_in_line(line, hay, needle, upto - 1);
        if occurs_at(hay, needle, upto - 1) {
            before.push(
                SearchMatch {
                    line,
                    start_col: (upto - 1) as usize,
                    end_col: (upto - 1 + needle.len()) as usize,
                },
            )
        } else {
            before
        }
    }
}

/// The text of line `line` of `text`, with its line break.
pub open spec fn line_text(text: Seq<char>, line: int) -> Seq<char> {
    text.subrange(line_start(text, line as nat), line_start(text, (line + 1) as nat))
}

/// A text as it is compared: itself if case matters, else its lowercase
/// form.
pub open spec fn folded(text: Seq<char>, case_sensitive: bool) -> Seq<char> {
    if case_sensitive {
        text
    } else {
        lowercase(text)
    }
}

/// The matches of `query` in the first `lines` lines of `text`, line by
/// line. Without regard to case, the lowercase form of each line is
/// searched for the lowercase form of the query, and the columns are
/// those of the lowercase line.
pub open spec fn matches_in_text(
    text: Seq<char>,
    query: Seq<char>,
    case_sensitive: bool,
    lines: int,
) -> Seq<SearchMatch>
    decreases lines,
{
    if lines <= 0 {
        Seq::empty()
    } else {
        let hay = folded(line_text(text, lines - 1), case_sensitive);
        matches_in_text(text, query, case_sensitive, lines - 1) + matches_in_line(
            (lines - 1) as usize,
            hay,
            folded(query, case_sensitive),
            hay.len() as int,
        )
    }
}

/// All matches of `query` in `text`; none for an empty query.
pub open spec fn found_in(text: Seq<char>, query: Seq<char>, case_sensitive: bool) -> Seq<
    SearchMatch,
> {
    if query.len() == 0 {
        Seq::empty()
    } else {
        matches_in_text(text, query, case_sensitive, line_count(text) as int)
    }
}

impl SearchState {
    /// The current match, if recorded, is one of the matches.
    pub open spec fn wf(&self) -> bool {
        self.current_match matches Some(i) ==> i < self.matches@.len()
    }

    /// The index that follows the current one, wrapping to the first match
    /// after the last; the first match if none is current.
    pub open spec fn next_index(&self) -> int {
        match self.current_match {
            Some(i) => (i + 1) % (self.matches@.len() as int),
            None => 0,
        }
    }

    /// The index that precedes the current one, wrapping to the last match
    /// before the first; the last match if none is current.
    pub open spec fn prev_index(&self) -> int {
        match self.current_match {
            Some(i) => if i == 0 {
                self.matches@.len() - 1
            } else {
                i - 1
            },
            None => self.matches@.len() - 1,
        }
    }

    /// The current match, if there is one.
    pub open spec fn spec_current(&self) -> Option<SearchMatch> {
        match self.current_match {
            Some(i) => if i < self.matches@.len() {
                Some(self.matches@[i as int])
            } else {
                None
            },
            None => None,
        }
    }

    /// Whether `(line, col)` lies inside some match.
    pub open spec fn spec_is_match(&self, line: usize, col: usize) -> bool {
        exists|i: int| 0 <= i < self.matches@.len() && (#[trigger] self.matches@[i]).covers(line, col)
    }

    /// The text shown beside the query: nothing while there is no query,
    /// `No matches` for a query that found nothing, else the 1-based number
    /// of the current match (0 if none is current), a slash and the number
    /// of matches.
    pub open spec fn info_text(&self) -> Seq<char> {
        if self.matches@.len() == 0 {
            if self.query@.len() == 0 {
                Seq::empty()
            } else {
                "No matches"@
            }
        } else {
            let current: nat = match self.current_match {
                Some(i) => (i + 1) as nat,
                None => 0,
            };
            decimal(current) + seq!['/'] + decimal(self.matches@.len())
        }
    }

    pub fn new() -> (s: SearchState)
        ensures
            s.wf(),
            s.query@.len() == 0,
            s.replace_text@.len() == 0,
            s.matches@.len() == 0,
            s.current_match.is_none(),
            !s.case_sensitive && !s.use_regex && !s.active && !s.replace_mode,
            s.replace_focus == 0,
    {
        SearchState {
            query: String::new(),
            case_sensitive: false,
            use_regex: false,
            active: false,
            matches: Vec::new(),
            current_match: None,
            replace_mode: false,
            replace_text: String::new(),
            replace_focus: 0,
        }
    }

    /// Moves the focus from the find field to the replace field or back
    pub fn toggle_replace_focus(&mut self)
        ensures
            *final(self) == (SearchState {
                replace_focus: if old(self).replace_focus == 0 {
                    1
                } else {
                    0
                },
                ..*old(self)
            }),
    {
        self.replace_focus = if self.replace_focus == 0 {
            1
        } else {
            0
        };
    }

    /// Open the search bar
    pub fn open(&mut self)
        ensures
            *final(self) == (SearchState { active: true, replace_mode: false, ..*old(self) }),
    {
        self.active = true;
        self.replace_mode = false;
    }

    /// Open the search bar in replace mode
    pub fn open_replace(&mut self)
        ensures
            *final(self) == (SearchState { active: true, replace_mode: true, ..*old(self) }),
    {
        self.active = true;
        self.replace_mode = true;
    }

    /// Close the search bar and forget the matches
    pub fn close(&mut self)
        ensures
            final(self).wf(),
            !final(self).active,
            final(self).matches@.len() == 0,
            final(self).current_match.is_none(),
            final(self).query == old(self).query,
            final(self).replace_text == old(self).replace_text,
            final(self).case_sensitive == old(self).case_sensitive,
            final(self).use_regex == old(self).use_regex,
            final(self).replace_mode == old(self).replace_mode,
            final(self).replace_focus == old(self).replace_focus,
    {
        self.active = false;
        self.matches.clear();
        self.current_match = None;
    }

    /// Update the matches for the current query in `doc`, and make the
    /// first of them current
    pub fn search(&mut self, doc: &Document)
        ensures
            final(self).wf(),
            final(self).matches@ == found_in(
                doc@.text,
                old(self).query@,
                old(self).case_sensitive,
            ),
            final(self).current_match == if final(self).matches@.len() > 0 {
                Some(0usize)
            } else {
                None
            },
            final(self).query == old(self).query,
            final(self).replace_text == old(self).replace_text,
            final(self).case_sensitive == old(self).case_sensitive,
            final(self).use_regex == old(self).use_regex,
            final(self).active == old(self).active,
            final(self).replace_mode == old(self).replace_mode,
            final(self).replace_focus == old(self).replace_focus,
    {
        self.matches.clear();
        self.current_match = None;
        if self.query.as_str().is_empty() {
            return ;
        }
        let needle_text = if self.case_sensitive {
            self.query.clone()
        } else {
            to_lowercase(self.query.as_str())
        };
        let needle = chars_of(needle_text.as_str());
        let lines = doc.line_count();
        let mut line_idx: usize = 0;
        while line_idx < lines
            invariant
                line_idx <= lines,
                lines == line_count(doc@.text),
                needle@ == folded(self.query@, self.case_sensitive),
                self.matches@ == matches_in_text(
                    doc@.text,
                    self.query@,
                    self.case_sensitive,
                    line_idx as int,
                ),
                self.current_match.is_none(),
                self.query == old(self).query,
                self.replace_text == old(self).replace_text,
                self.case_sensitive == old(self).case_sensitive,
                self.use_regex == old(self).use_regex,
                self.active == old(self).active,
                self.replace_mode == old(self).replace_mode,
                self.replace_focus == old(self).replace_focus,
            decreases lines - line_idx,
        {
            let line = match doc.buffer.line(line_idx) {
                Some(line) => line,
                None => String::new(),
            };
            let hay_text = if self.case_sensitive {
                line
            } else {
                to_lowercase(line.as_str())
            };
            let hay = chars_of(hay_text.as_str());
            let ghost before = self.matches@;
            let mut col: usize = 0;
            while col < hay.len()
                invariant
                    col <= hay@.len(),
                    self.matches@ == before + matches_in_line(line_idx, hay@, needle@, col as int),
                    self.current_match.is_none(),
                    self.query == old(self).query,
                    self.replace_text == old(self).replace_text,
                    self.case_sensitive == old(self).case_sensitive,
                    self.use_regex == old(self).use_regex,
                    self.active == old(self).active,
                    self.replace_mode == old(self).replace_mode,
                    self.replace_focus == old(self).replace_focus,
                decreases hay@.len() - col,
            {
                if is_at(&hay, &needle, col) {
                    self.matches.push(
                        SearchMatch { line: line_idx, start_col: col, end_col: col + needle.len() },
                    );
                }
                col += 1;
            }
            line_idx += 1;
        }
        if self.matches.len() > 0 {
            self.current_match = Some(0);
        }
    }

    /// Move to the next match
    pub fn next_match(&mut self) -> (r: Option<SearchMatch>)
        requires
            old(self).wf(),
        ensures
            final(self).wf(),
            old(self).matches@.len() == 0 ==> r.is_none() && *final(self) == *old(self),
            old(self).matches@.len() > 0 ==> {
                &&& 0 <= old(self).next_index() < old(self).matches@.len()
                &&& r == Some(old(self).matches@[old(self).next_index()])
                &&& *final(self) == (SearchState {
                    current_match: Some(old(self).next_index() as usize),
                    ..*old(self)
                })
            },
    {
        if self.matches.len() == 0 {
            return None;
        }
        let next_idx = match self.current_match {
            Some(idx) => {
                proof {
                    vstd::arithmetic::div_mod::lemma_mod_bound(
                        idx + 1,
                        self.matches@.len() as int,
                    );
                }
                (idx + 1) % self.matches.len()
            },
            None => 0,
        };
        self.current_match = Some(next_idx);
        Some(self.matches[next_idx])
    }

    /// Move to the previous match
    pub fn prev_match(&mut self) -> (r: Option<SearchMatch>)
        requires
            old(self).wf(),
        ensures
            final(self).wf(),
            old(self).matches@.len() == 0 ==> r.is_none() && *final(self) == *old(self),
            old(self).matches@.len() > 0 ==> {
                &&& 0 <= old(self).prev_index() < old(self).matches@.len()
                &&& r == Some(old(self).matches@[old(self).prev_index()])
                &&& *final(self) == (SearchState {
                    current_match: Some(old(self).prev_index() as usize),
                    ..*old(self)
                })
            },
    {
        if self.matches.len() == 0 {
            return None;
        }
        let prev_idx = match self.current_match {
            Some(idx) => {
                if idx == 0 {
                    self.matches.len() - 1
                } else {
                    idx - 1
                }
            },
            None => self.matches.len() - 1,
        };
        self.current_match = Some(prev_idx);
        Some(self.matches[prev_idx])
    }

    /// Get the current match
    pub fn current(&self) -> (r: Option<SearchMatch>)
        ensures
            r == self.spec_current(),
    {
        match self.current_match {
            Some(idx) => {
                if idx < self.matches.len() {
                    Some(self.matches[idx])
                } else {
                    None
                }
            },
            None => None,
        }
    }

    /// Find the next match after the given position
    pub fn find_next_from(&mut self, line: usize, col: usize) -> (r: Option<SearchMatch>)
        ensures
            old(self).matches@.len() == 0 ==> r.is_none() && *final(self) == *old(self),
            old(self).matches@.len() > 0 ==> exists|k: int|
                #![auto]
                {
                    &&& is_next_from(old(self).matches@, line, col, k)
                    &&& r == Some(old(self).matches@[k])
                    &&& *final(self) == (SearchState {
                        current_match: Some(k as usize),
                        ..*old(self)
                    })
                },
            old(self).matches@.len() > 0 ==> final(self).wf(),
    {
        if self.matches.len() == 0 {
            return None;
        }
        let mut idx: usize = 0;
        while idx < self.matches.len()
            invariant
                idx <= self.matches@.len(),
                *self == *old(self),
                forall|j: int| 0 <= j < idx ==> !(#[trigger] self.matches@[j]).starts_after(line, col),
            decreases self.matches@.len() - idx,
        {
            let m = self.matches[idx];
            if m.line > line || (m.line == line && m.start_col > col) {
                self.current_match = Some(idx);
                assert(is_next_from(old(self).matches@, line, col, idx as int));
                return Some(m);
            }
            idx += 1;
        }
        self.current_match = Some(0);
        assert(is_next_from(old(self).matches@, line, col, 0));
        Some(self.matches[0])
    }

    /// Find the previous match before the given position
    pub fn find_prev_from(&mut self, line: usize, col: usize) -> (r: Option<SearchMatch>)
        ensures
            old(self).matches@.len() == 0 ==> r.is_none() && *final(self) == *old(self),
            old(self).matches@.len() > 0 ==> exists|k: int|
                #![auto]
                {
                    &&& is_prev_from(old(self).matches@, line, col, k)
                    &&& r == Some(old(self).matches@[k])
                    &&& *final(self) == (SearchState {
                        current_match: Some(k as usize),
                        ..*old(self)
                    })
                },
            old(self).matches@.len() > 0 ==> final(self).wf(),
    {
        if self.matches.len() == 0 {
            return None;
        }
        let mut idx: usize = self.matches.len();
        while idx > 0
            invariant
                idx <= self.matches@.len(),
                *self == *old(self),
                forall|j: int|
                    idx <= j < self.matches@.len() ==> !(#[trigger] self.matches@[j]).starts_before(
                        line,
                        col,
                    ),
            decreases idx,
        {
            idx -= 1;
            let m = self.matches[idx];
            if m.line < line || (m.line == line && m.start_col < col) {
                self.current_match = Some(idx);
                assert(is_prev_from(old(self).matches@, line, col, idx as int));
                return Some(m);
            }
        }
        let last_idx = self.matches.len() - 1;
        self.current_match = Some(last_idx);
        assert(is_prev_from(old(self).matches@, line, col, last_idx as int));
        Some(self.matches[last_idx])
    }

    /// Check if a position is within a match
    pub fn is_match(&self, line: usize, col: usize) -> (r: bool)
        ensures
            r == self.spec_is_match(line, col),
    {
        let mut idx: usize = 0;
        while idx < self.matches.len()
            invariant
                idx <= self.matches@.len(),
                forall|j: int| 0 <= j < idx ==> !(#[trigger] self.matches@[j]).covers(line, col),
            decreases self.matches@.len() - idx,
        {
            let m = self.matches[idx];
            if m.line == line && col >= m.start_col && col < m.end_col {
                return true;
            }
            idx += 1;
        }
        false
    }

    /// Check if a position is within the current match
    pub fn is_current_match(&self, line: usize, col: usize) -> (r: bool)
        ensures
            r == (self.spec_current() matches Some(m) && m.covers(line, col)),
    {
        match self.current() {
            Some(m) => m.line == line && col >= m.start_col && col < m.end_col,
            None => false,
        }
    }

    /// Get match count info string
    pub fn match_info(&self) -> (info: String)
        requires
            self.wf(),
        ensures
            info@ == self.info_text(),
    {
        if self.matches.len() == 0 {
            if self.query.as_str().is_empty() {
                String::new()
            } else {
                "No matches".to_string()
            }
        } else {
            let current: usize = match self.current_match {
                Some(i) => i + 1,
                None => 0,
            };
            let mut info = String::new();
            push_decimal(&mut info, current);
            info.push('/');
            push_decimal(&mut info, self.matches.len());
            info
        }
    }

    /// Handle backspace in search input
    pub fn backspace(&mut self)
        ensures
            final(self).query@ == if old(self).query@.len() > 0 {
                old(self).query@.drop_last()
            } else {
                old(self).query@
            },
            *final(self) == (SearchState { query: final(self).query, ..*old(self) }),
    {
        self.query.pop();
    }

    /// Handle character input in search input
    pub fn input_char(&mut self, c: char)
        ensures
            final(self).query@ == old(self).query@.push(c),
            *final(self) == (SearchState { query: final(self).query, ..*old(self) }),
    {
        self.query.push(c);
    }

    /// Handle backspace in replace input
    pub fn replace_backspace(&mut self)
        ensures
            final(self).replace_text@ == if old(self).replace_text@.len() > 0 {
                old(self).replace_text@.drop_last()
            } else {
                old(self).replace_text@
            },
            *final(self) == (SearchState {
                replace_text: final(self).replace_text,
                ..*old(self)
            }),
    {
        self.replace_text.pop();
    }

    /// Handle character input in replace input
    pub fn replace_input_char(&mut self, c: char)
        ensures
            final(self).replace_text@ == old(self).replace_text@.push(c),
            *final(self) == (SearchState {
                replace_text: final(self).replace_text,
                ..*old(self)
            }),
    {
        self.replace_text.push(c);
    }
}

impl Default for SearchState {
    fn default() -> (s: SearchState)
        ensures
            s.wf(),
            s.query@.len() == 0,
            s.matches@.len() == 0,
            s.current_match.is_none(),
            !s.active,
    {
        SearchState::new()
    }
}

} // verus!
