//! The bounded, ordered collection of sessions and the one that is active.

use vstd::prelude::*;
use crate::terminal::session::{Terminal, TerminalView};
use vstd::arithmetic::div_mod::{lemma_mod_self_0, lemma_small_mod};

verus! {

/// The number of sessions a registry holds unless told otherwise.
pub const MAX_TERMINALS: usize = 10;

/// The width a session is opened with, until the real layout is known.
pub const DEFAULT_COLS: u16 = 80;

/// The height a session is opened with, until the real layout is known.
pub const DEFAULT_ROWS: u16 = 24;

/// Why a registry turned a request down.
#[derive(Debug, Clone, Copy, PartialEq, Eq, Structural)]
pub enum RegistryError {
    /// The registry already holds as many sessions as it may.
    AtCapacity,
}

/// The sessions in tab order, and which of them is active.
pub struct TerminalRegistry {
    /// The sessions, in the order they were created.
    pub terminals: Vec<Terminal>,
    /// Index of the active session; meaningful while there is one.
    pub active: usize,
    /// The most sessions this registry will hold.
    pub capacity: usize,
}

/// The mathematical content of a registry.
pub struct RegistryView {
    pub sessions: Seq<TerminalView>,
    pub active: nat,
    pub capacity: nat,
}

impl RegistryView {
    /// Every session is valid, the bound is kept, and the active index
    /// points at a session whenever there is one.
    pub open spec fn valid(self) -> bool {
        &&& forall|i: int| 0 <= i < self.sessions.len() ==> (#[trigger] self.sessions[i]).valid()
        &&& self.sessions.len() <= self.capacity
        &&& (self.sessions.len() == 0 || self.active < self.sessions.len())
    }

    pub open spec fn is_full(self) -> bool {
        self.sessions.len() >= self.capacity
    }

    /// The registry after a session was appended and made active.
    pub open spec fn create(self) -> RegistryView {
        RegistryView {
            sessions: self.sessions.push(TerminalView::fresh(DEFAULT_COLS, DEFAULT_ROWS)),
            active: self.sessions.len(),
            ..self
        }
    }

    /// The registry after `create` was asked for `n` times: each request
    /// appends a session, unless the registry is full by then, which turns
    /// it down and stays as it is.
    pub open spec fn create_times(self, n: nat) -> RegistryView
        decreases n,
    {
        if n == 0 {
            self
        } else {
            let before = self.create_times((n - 1) as nat);
            if before.is_full() {
                before
            } else {
                before.create()
            }
        }
    }

    /// The active index once `remaining` sessions are left: unchanged if it
    /// still points at one of them, else the last of them.
    pub open spec fn reclamped(active: nat, remaining: nat) -> nat {
        if remaining > 0 && active >= remaining {
            (remaining - 1) as nat
        } else {
            active
        }
    }

    /// The registry after `close(index)`.
    pub open spec fn close(self, index: nat) -> RegistryView {
        if index < self.sessions.len() {
            RegistryView {
                sessions: self.sessions.remove(index as int),
                active: Self::reclamped(self.active, (self.sessions.len() - 1) as nat),
                ..self
            }
        } else {
            self
        }
    }

    /// The registry after `switch(index)`.
    pub open spec fn switch(self, index: nat) -> RegistryView {
        if index < self.sessions.len() {
            RegistryView { active: index, ..self }
        } else {
            self
        }
    }

    /// The registry after `next()`.
    pub open spec fn next(self) -> RegistryView {
        if self.sessions.len() > 0 {
            RegistryView { active: ((self.active + 1) as nat) % self.sessions.len(), ..self }
        } else {
            self
        }
    }

    /// The registry after `prev()`.
    pub open spec fn prev(self) -> RegistryView {
        if self.sessions.len() > 0 {
            RegistryView {
                active: if self.active == 0 {
                    (self.sessions.len() - 1) as nat
                } else {
                    (self.active - 1) as nat
                },
                ..self
            }
        } else {
            self
        }
    }

    /// Whether the pseudo-terminal of session `i` took the new size,
    /// according to `pty_resized`. A session without an entry did not.
    pub open spec fn took_size(pty_resized: Seq<bool>, i: int) -> bool {
        0 <= i < pty_resized.len() && pty_resized[i]
    }

    /// The registry after `broadcast_resize(cols, rows, pty_resized)`: each
    /// session resized on its own.
    pub open spec fn broadcast_resize(
        self,
        cols: u16,
        rows: u16,
        pty_resized: Seq<bool>,
    ) -> RegistryView {
        RegistryView {
            sessions: Seq::new(
                self.sessions.len(),
                |i: int| self.sessions[i].resize(cols, rows, Self::took_size(pty_resized, i)),
            ),
            ..self
        }
    }
}

/// One step forward through `n` slots, from slot `a`: the next slot, or
/// the first after the last.
pub proof fn lemma_wrapping_step(a: nat, n: nat)
    requires
        a < n,
    ensures
        ((a + 1) as nat) % n == if a + 1 == n {
            0
        } else {
            a + 1
        },
{
    if a + 1 == n {
        lemma_mod_self_0(n as int);
    } else {
        lemma_small_mod((a + 1) as nat, n);
    }
}

impl View for TerminalRegistry {
    type V = RegistryView;

    open spec fn view(&self) -> RegistryView {
        RegistryView {
            sessions: self.terminals@.map_values(|t: Terminal| t@),
            active: self.active as nat,
            capacity: self.capacity as nat,
        }
    }
}

impl TerminalRegistry {
    /// Every session is well formed and the view is valid.
    pub open spec fn wf(&self) -> bool {
        &&& forall|i: int| 0 <= i < self.terminals@.len() ==> (#[trigger] self.terminals@[i]).wf()
        &&& self@.valid()
    }

    /// An empty registry with room for `MAX_TERMINALS` sessions.
    pub fn new() -> (registry: TerminalRegistry)
        ensures
            registry.wf(),
            registry@.sessions.len() == 0,
            registry@.active == 0,
            registry@.capacity == MAX_TERMINALS,
    {
        TerminalRegistry { terminals: Vec::new(), active: 0, capacity: MAX_TERMINALS }
    }

    /// An empty registry with room for `capacity` sessions.
    pub fn with_capacity(capacity: usize) -> (registry: TerminalRegistry)
        ensures
            registry.wf(),
            registry@.sessions.len() == 0,
            registry@.active == 0,
            registry@.capacity == capacity,
    {
        TerminalRegistry { terminals: Vec::new(), active: 0, capacity }
    }

    /// The number of sessions.
    pub fn len(&self) -> (n: usize)
        ensures
            n == self@.sessions.len(),
    {
        self.terminals.len()
    }

    /// Whether there is no session.
    pub fn is_empty(&self) -> (empty: bool)
        ensures
            empty == (self@.sessions.len() == 0),
    {
        self.terminals.len() == 0
    }

    /// Whether `create` would be turned down.
    pub fn is_full(&self) -> (full: bool)
        ensures
            full == self@.is_full(),
    {
        self.terminals.len() >= self.capacity
    }

    /// The active session, if there is one.
    pub fn active_terminal(&self) -> (t: Option<&Terminal>)
        ensures
            t.is_some() == (self.active < self.terminals@.len()),
            t matches Some(term) ==> *term == self.terminals@[self.active as int],
    {
        if self.active < self.terminals.len() {
            Some(&self.terminals[self.active])
        } else {
            None
        }
    }

    /// Appends a freshly opened session of the default size and makes it
    /// active. A full registry turns the request down and stays as it is;
    /// no session is evicted to make room.
    pub fn create(&mut self) -> (r: Result<usize, RegistryError>)
        requires
            old(self).wf(),
        ensures
            final(self).wf(),
            r.is_ok() <==> !old(self)@.is_full(),
            r matches Ok(index) ==> index == old(self)@.sessions.len() && final(self)@ == old(self)@.create(),
            r matches Err(e) ==> e == RegistryError::AtCapacity && *final(self) == *old(self),
    {
        if self.terminals.len() >= self.capacity {
            return Err(RegistryError::AtCapacity);
        }
        match Terminal::new(DEFAULT_COLS, DEFAULT_ROWS) {
            Ok(term) => {
                self.terminals.push(term);
                self.active = self.terminals.len() - 1;
                proof {
                    assert(self@.sessions =~= old(self)@.create().sessions);
                }
                Ok(self.active)
            },
            Err(_) => Err(RegistryError::AtCapacity),
        }
    }

    /// Removes the session at `index`. If the active index no longer points
    /// at a session, it moves to the new last one. An index that names no
    /// session changes nothing.
    pub fn close(&mut self, index: usize)
        requires
            old(self).wf(),
        ensures
            final(self).wf(),
            final(self)@ == old(self)@.close(index as nat),
            index >= old(self)@.sessions.len() ==> *final(self) == *old(self),
    {
        if index >= self.terminals.len() {
            return ;
        }
        self.terminals.remove(index);
        if self.active >= self.terminals.len() && self.terminals.len() > 0 {
            self.active = self.terminals.len() - 1;
        }
        proof {
            assert(self@.sessions =~= old(self)@.close(index as nat).sessions);
        }
    }

    /// Makes the session at `index` active, if there is one.
    pub fn switch(&mut self, index: usize)
        requires
            old(self).wf(),
        ensures
            final(self).wf(),
            final(self)@ == old(self)@.switch(index as nat),
            final(self).terminals == old(self).terminals,
    {
        if index < self.terminals.len() {
            self.active = index;
        }
    }

    /// Makes the following session active, wrapping from the last to the
    /// first. Does nothing on an empty registry.
    pub fn next(&mut self)
        requires
            old(self).wf(),
        ensures
            final(self).wf(),
            final(self)@ == old(self)@.next(),
            final(self).terminals == old(self).terminals,
    {
        if self.terminals.len() > 0 {
            proof {
                lemma_wrapping_step(self.active as nat, self.terminals@.len());
            }
            self.active = if self.active + 1 == self.terminals.len() {
                0
            } else {
                self.active + 1
            };
        }
    }

    /// Makes the preceding session active, wrapping from the first to the
    /// last. Does nothing on an empty registry.
    pub fn prev(&mut self)
        requires
            old(self).wf(),
        ensures
            final(self).wf(),
            final(self)@ == old(self)@.prev(),
            final(self).terminals == old(self).terminals,
    {
        if self.terminals.len() > 0 {
            self.active = if self.active == 0 {
                self.terminals.len() - 1
            } else {
                self.active - 1
            };
        }
    }

    /// Resizes every session to `cols` by `rows`, each on its own:
    /// `pty_resized[i]` tells whether the pseudo-terminal of session `i` took
    /// the size. A session that has the size already is passed over; a
    /// session whose pseudo-terminal did not take the size, or a zero width
    /// or height, leaves that session as it was.
    pub fn broadcast_resize(&mut self, cols: u16, rows: u16, pty_resized: &Vec<bool>)
        requires
            old(self).wf(),
        ensures
            final(self).wf(),
            final(self)@ == old(self)@.broadcast_resize(cols, rows, pty_resized@),
    {
        let n = self.terminals.len();
        let mut i: usize = 0;
        while i < n
            invariant
                i <= n,
                n == self.terminals@.len(),
                n == old(self).terminals@.len(),
                self.active == old(self).active,
                self.capacity == old(self).capacity,
                old(self).wf(),
                forall|j: int| 0 <= j < n ==> (#[trigger] self.terminals@[j]).wf(),
                forall|j: int|
                    0 <= j < i ==> (#[trigger] self.terminals@[j])@ == old(self).terminals@[j]@.resize(
                        cols,
                        rows,
                        RegistryView::took_size(pty_resized@, j),
                    ),
                forall|j: int| i <= j < n ==> self.terminals@[j] == old(self).terminals@[j],
            decreases n - i,
        {
            if self.terminals[i].needs_resize(cols, rows) {
                let took = i < pty_resized.len() && pty_resized[i];
                let _ = self.terminals[i].resize(cols, rows, took);
            }
            i += 1;
        }
        proof {
            assert(self@.sessions =~= old(self)@.broadcast_resize(cols, rows, pty_resized@).sessions);
        }
    }
}

/// However often `create` is asked for, the registry grows by one session
/// with each request until it is full, and then holds exactly as many as
/// it may: every request before that succeeds, and every request after
/// it is turned down without a change.
pub proof fn lemma_create_until_full(v: RegistryView, n: nat)
    requires
        v.valid(),
    ensures
        v.create_times(n).valid(),
        v.create_times(n).capacity == v.capacity,
        v.create_times(n).sessions.len() == if v.sessions.len() + n <= v.capacity {
            v.sessions.len() + n
        } else {
            v.capacity
        },
        v.sessions.len() + n <= v.capacity && n > 0 ==> !v.create_times((n - 1) as nat).is_full(),
        v.sessions.len() + n > v.capacity ==> v.create_times(n).is_full() && v.create_times(
            n + 1,
        ) == v.create_times(n),
    decreases n,
{
    if n > 0 {
        lemma_create_until_full(v, (n - 1) as nat);
    }
}

/// Closing the active session of a registry that holds more than one
/// leaves the active index pointing at a session.
pub proof fn lemma_close_active_stays_valid(v: RegistryView)
    requires
        v.valid(),
        v.sessions.len() > 1,
    ensures
        v.close(v.active).sessions.len() == v.sessions.len() - 1,
        v.close(v.active).active < v.close(v.active).sessions.len(),
        v.close(v.active).valid(),
{
}

/// Whatever is closed, switched to or stepped over, a valid registry stays
/// valid: it is empty, or its active index points at a session.
pub proof fn lemma_registry_stays_valid(v: RegistryView, index: nat)
    requires
        v.valid(),
    ensures
        v.close(index).valid(),
        v.switch(index).valid(),
        v.next().valid(),
        v.prev().valid(),
        !v.is_full() ==> v.create().valid(),
{
    if v.sessions.len() > 0 {
        lemma_wrapping_step(v.active, v.sessions.len());
    }
}

/// Stepping forward from the last session wraps to the first, and stepping
/// back from the first wraps to the last.
pub proof fn lemma_step_wraps(v: RegistryView)
    requires
        v.valid(),
        v.sessions.len() > 0,
    ensures
        v.active + 1 == v.sessions.len() ==> v.next().active == 0,
        v.active + 1 < v.sessions.len() ==> v.next().active == v.active + 1,
        v.active == 0 ==> v.prev().active == v.sessions.len() - 1,
        v.next().prev().active == v.active,
        v.prev().next().active == v.active,
{
    lemma_wrapping_step(v.active, v.sessions.len());
    lemma_wrapping_step(v.prev().active, v.sessions.len());
}

} // verus!
