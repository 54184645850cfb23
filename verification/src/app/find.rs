//! Finding and replacing in the active document.

use vstd::prelude::*;
use vstd::seq_lib::group_to_multiset_ensures;
use crate::app::App;
use crate::editor::document::{Document, DocumentView};
use crate::search::{found_in, is_next_from, is_prev_from, SearchMatch, SearchState};

verus! {

/// The rows and columns the editor is taken to have when a match is
/// brought into view.
pub const VIEW_LINES: usize = 30;

pub const VIEW_COLS: usize = 80;

/// The document with a match selected and scrolled into view.
pub open spec fn showing_match(d: DocumentView, m: SearchMatch) -> DocumentView {
    d.select_stretch(m.line, m.start_col, m.end_col).ensure_cursor_visible(VIEW_LINES, VIEW_COLS)
}

/// Whether `a` starts at or behind the start of `b`.
pub open spec fn starts_at_or_behind(a: SearchMatch, b: SearchMatch) -> bool {
    a.line > b.line || (a.line == b.line && a.start_col >= b.start_col)
}

/// `sorted` with `m` put in behind every match that starts at or behind
/// the start of `m`.
pub open spec fn put_in(sorted: Seq<SearchMatch>, m: SearchMatch) -> Seq<SearchMatch>
    decreases sorted.len(),
{
    if sorted.len() == 0 {
        seq![m]
    } else if starts_at_or_behind(sorted.last(), m) {
        sorted.push(m)
    } else {
        put_in(sorted.drop_last(), m).push(sorted.last())
    }
}

/// The matches from the last start to the first. Matches with the same
/// start stay in the order they came in.
pub open spec fn latest_first(matches: Seq<SearchMatch>) -> Seq<SearchMatch>
    decreases matches.len(),
{
    if matches.len() == 0 {
        Seq::empty()
    } else {
        put_in(latest_first(matches.drop_last()), matches.last())
    }
}

/// Whether each match starts at or behind the start of every later one.
pub open spec fn is_latest_first(matches: Seq<SearchMatch>) -> bool {
    forall|i: int, j: int|
        0 <= i < j < matches.len() ==> starts_at_or_behind(
            #[trigger] matches[i],
            #[trigger] matches[j],
        )
}

/// Putting a match into a list that goes from the last start to the
/// first gives such a list with exactly one match more.
pub proof fn lemma_put_in(sorted: Seq<SearchMatch>, m: SearchMatch)
    requires
        is_latest_first(sorted),
    ensures
        is_latest_first(put_in(sorted, m)),
        put_in(sorted, m).to_multiset() == sorted.to_multiset().insert(m),
        put_in(sorted, m).len() == sorted.len() + 1,
    decreases sorted.len(),
{
    broadcast use group_to_multiset_ensures;

    if sorted.len() > 0 && !starts_at_or_behind(sorted.last(), m) {
        let front = sorted.drop_last();
        let last = sorted.last();
        lemma_put_in(front, m);
        let mid = put_in(front, m);
        // every match of `mid` is the new one or one of `front`
        assert forall|i: int| 0 <= i < mid.len() implies starts_at_or_behind(
            #[trigger] mid[i],
            last,
        ) by {
            assert(mid.to_multiset().count(mid[i]) > 0);
        }
        assert(sorted =~= front.push(last));
    }
}

/// The order from the last start to the first holds the same matches,
/// each as often, and is in that order.
pub proof fn lemma_latest_first(matches: Seq<SearchMatch>)
    ensures
        is_latest_first(latest_first(matches)),
        latest_first(matches).to_multiset() == matches.to_multiset(),
        latest_first(matches).len() == matches.len(),
    decreases matches.len(),
{
    broadcast use group_to_multiset_ensures;

    if matches.len() > 0 {
        lemma_latest_first(matches.drop_last());
        lemma_put_in(latest_first(matches.drop_last()), matches.last());
        assert(matches =~= matches.drop_last().push(matches.last()));
    }
}

/// Puts `m` into `sorted`, behind every match that starts at or behind it.
fn put_match_in(sorted: &mut Vec<SearchMatch>, m: SearchMatch)
    ensures
        final(sorted)@ == put_in(old(sorted)@, m),
{
    let ghost before = sorted@;
    let mut pos: usize = sorted.len();
    proof {
        assert(before.take(pos as int) =~= before);
    }
    while pos > 0 && !(sorted[pos - 1].line > m.line || (sorted[pos - 1].line == m.line
        && sorted[pos - 1].start_col >= m.start_col))
        invariant
            pos <= sorted@.len(),
            sorted@ == before,
            put_in(before, m) == put_in(before.take(pos as int), m) + before.skip(pos as int),
        decreases pos,
    {
        proof {
            let part = before.take(pos as int);
            assert(part.drop_last() =~= before.take(pos - 1));
        }
        pos -= 1;
    }
    sorted.insert(pos, m);
}

/// The matches from the last start to the first.
pub fn sort_latest_first(matches: &Vec<SearchMatch>) -> (sorted: Vec<SearchMatch>)
    ensures
        sorted@ == latest_first(matches@),
{
    let mut sorted: Vec<SearchMatch> = Vec::new();
    let mut i: usize = 0;
    while i < matches.len()
        invariant
            i <= matches@.len(),
            sorted@ == latest_first(matches@.take(i as int)),
        decreases matches@.len() - i,
    {
        proof {
            let upto = matches@.take(i + 1);
            assert(upto.drop_last() =~= matches@.take(i as int));
        }
        put_match_in(&mut sorted, matches[i]);
        i += 1;
    }
    proof {
        assert(matches@.take(i as int) =~= matches@);
    }
    sorted
}

/// The document after each of the stretches `matches` was replaced by
/// `text`, one after the other.
pub open spec fn replaced_each(d: DocumentView, matches: Seq<SearchMatch>, text: Seq<char>)
    -> DocumentView
    decreases matches.len(),
{
    if matches.len() == 0 {
        d
    } else {
        let m = matches.last();
        replaced_each(d, matches.drop_last(), text).replace_stretch(
            m.line,
            m.start_col,
            m.end_col,
            text,
        )
    }
}

/// `post` is `pre` but for the search state and the active document.
pub open spec fn only_search_and_document_differ(pre: App, post: App) -> bool {
    &&& post == (App { search: post.search, documents: post.documents, ..pre })
    &&& post.documents@.len() == pre.documents@.len()
    &&& forall|i: int|
        0 <= i < pre.documents@.len() && i != pre.active_doc ==> #[trigger] post.documents@[i]
            == pre.documents@[i]
}

/// The active document of an application.
pub open spec fn active_of(app: App) -> Document {
    app.documents@[app.active_doc as int]
}

/// `post` is `pre` after the matches were found anew for the query in the
/// active document, and the first of them made current.
pub open spec fn searched(pre: App, post: App) -> bool {
    &&& post == (App { search: post.search, ..pre })
    &&& post.search.matches@ == found_in(
        active_of(pre)@.text,
        pre.search.query@,
        pre.search.case_sensitive,
    )
    &&& post.search.current_match == if post.search.matches@.len() > 0 {
        Some(0usize)
    } else {
        None
    }
    &&& post.search.query == pre.search.query
    &&& post.search.replace_text == pre.search.replace_text
    &&& post.search.active == pre.search.active
    &&& post.search.replace_mode == pre.search.replace_mode
    &&& post.search.replace_focus == pre.search.replace_focus
    &&& post.search.case_sensitive == pre.search.case_sensitive
    &&& post.search.use_regex == pre.search.use_regex
}

/// `post` is `pre` after the first match behind the cursor, or else the
/// first match of all, was made current, selected and scrolled into
/// view; or `pre` itself if there are no matches.
pub open spec fn found_next(pre: App, post: App) -> bool {
    if pre.search.matches@.len() == 0 {
        post == pre
    } else {
        &&& only_search_and_document_differ(pre, post)
        &&& exists|k: int|
            {
                &&& #[trigger] is_next_from(
                    pre.search.matches@,
                    active_of(pre).cursor.line,
                    active_of(pre).cursor.col,
                    k,
                )
                &&& post.search == (SearchState { current_match: Some(k as usize), ..pre.search })
                &&& active_of(post)@ == showing_match(active_of(pre)@, pre.search.matches@[k])
            }
    }
}

/// `post` is `pre` after the last match before the cursor, or else the
/// last match of all, was made current, selected and scrolled into view;
/// or `pre` itself if there are no matches.
pub open spec fn found_prev(pre: App, post: App) -> bool {
    if pre.search.matches@.len() == 0 {
        post == pre
    } else {
        &&& only_search_and_document_differ(pre, post)
        &&& exists|k: int|
            {
                &&& #[trigger] is_prev_from(
                    pre.search.matches@,
                    active_of(pre).cursor.line,
                    active_of(pre).cursor.col,
                    k,
                )
                &&& post.search == (SearchState { current_match: Some(k as usize), ..pre.search })
                &&& active_of(post)@ == showing_match(active_of(pre)@, pre.search.matches@[k])
            }
    }
}

/// `mid` is `pre` with the current match `m` replaced by the replacement
/// text.
pub open spec fn replaced_match(pre: App, m: SearchMatch, mid: App) -> bool {
    &&& only_search_and_document_differ(pre, mid)
    &&& mid.search == pre.search
    &&& active_of(mid)@ == active_of(pre)@.replace_stretch(
        m.line,
        m.start_col,
        m.end_col,
        pre.search.replace_text@,
    )
}

/// `post` is `pre` after `replace_current`: outside replace mode nothing
/// happens; without a current match the next match is found; else the
/// current match is replaced, the matches are found anew, and the next
/// of them is found.
pub open spec fn replaced_current(pre: App, post: App) -> bool {
    if !pre.search.replace_mode {
        post == pre
    } else {
        match pre.search.spec_current() {
            None => found_next(pre, post),
            Some(m) => exists|mid: App, again: App|
                #![trigger searched(mid, again)]
                { replaced_match(pre, m, mid) && searched(mid, again) && found_next(again, post) },
        }
    }
}

/// `post` is `pre` after `replace_all`: outside replace mode, or without
/// matches, nothing happens; else every match is replaced, from the last
/// start to the first, and the matches are found anew.
pub open spec fn replaced_all(pre: App, post: App) -> bool {
    if !pre.search.replace_mode || pre.search.matches@.len() == 0 {
        post == pre
    } else {
        exists|mid: App|
            {
                &&& only_search_and_document_differ(pre, mid)
                &&& mid.search == pre.search
                &&& active_of(mid)@ == replaced_each(
                    active_of(pre)@,
                    latest_first(pre.search.matches@),
                    pre.search.replace_text@,
                )
                &&& #[trigger] searched(mid, post)
            }
    }
}

impl App {
    /// Perform search with current query in active document
    pub fn do_search(&mut self)
        requires
            old(self).wf(),
        ensures
            final(self).wf(),
            searched(*old(self), *final(self)),
    {
        self.search.search(&self.documents[self.active_doc]);
    }

    /// Find the next search match behind the cursor and select it
    pub fn find_next(&mut self)
        requires
            old(self).wf(),
        ensures
            final(self).wf(),
            found_next(*old(self), *final(self)),
    {
        let active = self.active_doc;
        let line = self.documents[active].cursor.line;
        let col = self.documents[active].cursor.col;
        match self.search.find_next_from(line, col) {
            Some(m) => {
                self.show_match(m);
            },
            None => {},
        }
    }

    /// Find the previous search match before the cursor and select it
    pub fn find_prev(&mut self)
        requires
            old(self).wf(),
        ensures
            final(self).wf(),
            found_prev(*old(self), *final(self)),
    {
        let active = self.active_doc;
        let line = self.documents[active].cursor.line;
        let col = self.documents[active].cursor.col;
        match self.search.find_prev_from(line, col) {
            Some(m) => {
                self.show_match(m);
            },
            None => {},
        }
    }

    /// Selects a match in the active document and scrolls it into view.
    fn show_match(&mut self, m: SearchMatch)
        requires
            old(self).active_doc < old(self).documents@.len(),
        ensures
            final(self).documents@.len() == old(self).documents@.len(),
            active_of(*final(self))@ == showing_match(active_of(*old(self))@, m),
            forall|i: int|
                0 <= i < old(self).documents@.len() && i != old(self).active_doc ==> final(self).documents@[i] == old(self).documents@[i],
            *final(self) == (App { documents: final(self).documents, ..*old(self) }),
    {
        let active = self.active_doc;
        self.documents[active].select_stretch(m.line, m.start_col, m.end_col);
        self.documents[active].ensure_cursor_visible(VIEW_LINES, VIEW_COLS);
    }

    /// Replace the current match with the replacement text, search
    /// again, and go on to the next match. Without a current match only
    /// the next match is found. Outside replace mode nothing happens.
    pub fn replace_current(&mut self)
        requires
            old(self).wf(),
        ensures
            final(self).wf(),
            replaced_current(*old(self), *final(self)),
    {
        if !self.search.replace_mode {
            return ;
        }
        match self.search.current() {
            Some(m) => {
                let replace_text = self.search.replace_text.clone();
                let active = self.active_doc;
                self.documents[active].replace_stretch(
                    m.line,
                    m.start_col,
                    m.end_col,
                    replace_text.as_str(),
                );
                self.do_search();
                self.find_next();
            },
            None => {
                self.find_next();
            },
        }
    }

    /// Replace all matches with the replacement text, from the last
    /// match to the first, and search again. Outside replace mode, or
    /// without matches, nothing happens.
    pub fn replace_all(&mut self)
        requires
            old(self).wf(),
        ensures
            final(self).wf(),
            replaced_all(*old(self), *final(self)),
    {
        if !self.search.replace_mode || self.search.matches.len() == 0 {
            return ;
        }
        let replace_text = self.search.replace_text.clone();
        let matches = sort_latest_first(&self.search.matches);
        let active = self.active_doc;
        let ghost start = self.documents@[active as int]@;
        let mut i: usize = 0;
        while i < matches.len()
            invariant
                i <= matches@.len(),
                active == self.active_doc,
                active < self.documents@.len(),
                self.documents@.len() == old(self).documents@.len(),
                self.documents@[active as int]@ == replaced_each(
                    start,
                    matches@.take(i as int),
                    replace_text@,
                ),
                forall|k: int|
                    0 <= k < self.documents@.len() && k != active ==> self.documents@[k] == old(self).documents@[k],
                *self == (App { documents: self.documents, ..*old(self) }),
            decreases matches@.len() - i,
        {
            let m = matches[i];
            proof {
                let upto = matches@.take(i + 1);
                assert(upto.drop_last() =~= matches@.take(i as int));
            }
            self.documents[active].replace_stretch(
                m.line,
                m.start_col,
                m.end_col,
                replace_text.as_str(),
            );
            i += 1;
        }
        proof {
            assert(matches@.take(i as int) =~= matches@);
        }
        self.do_search();
    }
}

} // verus!
