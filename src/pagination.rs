use vstd::prelude::*;
use crate::response::{Embed, EmbedPages};

verus! {

/// A navigation event delivered for the interaction that owns a session.
#[derive(Clone, Copy, Debug, PartialEq, Eq, Structural)]
pub enum Nav {
    Next,
    Previous,
    /// Go to the given page; an index past the end goes to the last page.
    Jump(usize),
    Close,
    Timeout,
}

/// What the host does after the session has taken an event.
#[derive(Clone, Copy, Debug, PartialEq, Eq, Structural)]
pub enum Step {
    /// Edit the response to show the current page.
    Render,
    /// The session has ended now; the response stays as it is.
    Closed,
    /// The session had already ended; nothing changes and nothing is shown.
    Ignored,
}

/// The cursor after `ev`, on a set of `n` pages, from cursor `c`, while the
/// session is open.
pub open spec fn nav_cursor(n: nat, c: nat, ev: Nav) -> nat {
    match ev {
        Nav::Next => if c + 1 < n { c + 1 } else { (n - 1) as nat },
        Nav::Previous => if c > 0 { (c - 1) as nat } else { 0 },
        Nav::Jump(k) => if (k as nat) < n { k as nat } else { (n - 1) as nat },
        Nav::Close => c,
        Nav::Timeout => c,
    }
}

/// Whether `ev` ends the session.
pub open spec fn ends_session(ev: Nav) -> bool {
    ev is Close || ev is Timeout
}

/// The cursor and the open flag after `ev`; a closed session keeps its state.
pub open spec fn nav_state(n: nat, c: nat, open: bool, ev: Nav) -> (nat, bool) {
    if !open {
        (c, false)
    } else if ends_session(ev) {
        (c, false)
    } else {
        (nav_cursor(n, c, ev), true)
    }
}

/// What the host is told to do after `ev`.
pub open spec fn nav_step(open: bool, ev: Nav) -> Step {
    if !open {
        Step::Ignored
    } else if ends_session(ev) {
        Step::Closed
    } else {
        Step::Render
    }
}

/// The cursor and the open flag after a whole sequence of events.
pub open spec fn nav_run(n: nat, c: nat, open: bool, evs: Seq<Nav>) -> (nat, bool)
    decreases evs.len(),
{
    if evs.len() == 0 {
        (c, open)
    } else {
        let (c1, o1) = nav_state(n, c, open, evs[0]);
        nav_run(n, c1, o1, evs.drop_first())
    }
}

/// The paging state of one interaction: its pages, the page shown, and
/// whether it still takes events.
pub struct PageSession {
    pages: EmbedPages,
    cursor: usize,
    open: bool,
}

impl PageSession {
    #[verifier::type_invariant]
    spec fn inv(self) -> bool {
        self.cursor < self.pages@.len()
    }

    pub closed spec fn pages(&self) -> Seq<Embed> {
        self.pages@
    }

    pub closed spec fn cursor(&self) -> nat {
        self.cursor as nat
    }

    pub closed spec fn is_open(&self) -> bool {
        self.open
    }

    /// The page that a render shows.
    pub open spec fn shown(&self) -> Embed {
        self.pages()[self.cursor() as int]
    }

    pub open spec fn wf(&self) -> bool {
        self.cursor() < self.pages().len()
    }

    /// A session on `pages`, open, at the first page.
    pub fn start(pages: EmbedPages) -> (r: PageSession)
        ensures
            r.wf(),
            r.pages() == pages@,
            r.cursor() == 0,
            r.is_open(),
            r.shown() == pages@[0],
    {
        // `len` shows the set is non-empty, so the first page is in range.
        let _count: usize = pages.len();
        PageSession { pages, cursor: 0, open: true }
    }

    /// The number of pages.
    pub fn len(&self) -> (r: usize)
        ensures
            r == self.pages().len(),
            r > 0,
    {
        self.pages.len()
    }

    /// The index of the page shown.
    pub fn position(&self) -> (r: usize)
        ensures
            r == self.cursor(),
            r < self.pages().len(),
    {
        proof {
            use_type_invariant(self);
        }
        self.cursor
    }

    /// Whether the session still takes events.
    pub fn active(&self) -> (r: bool)
        ensures
            r == self.is_open(),
    {
        self.open
    }

    /// The page to show: the one under the cursor.
    pub fn current(&self) -> (r: &Embed)
        ensures
            self.wf(),
            *r == self.shown(),
    {
        proof {
            use_type_invariant(self);
        }
        self.pages.page(self.cursor)
    }

    /// Takes one navigation event. Moves are clamped to the pages; `Close` and
    /// `Timeout` end the session; an ended session takes no more events.
    pub fn handle(&mut self, ev: Nav) -> (r: Step)
        ensures
            old(self).wf(),
            final(self).wf(),
            final(self).pages() == old(self).pages(),
            (final(self).cursor(), final(self).is_open()) == nav_state(
                old(self).pages().len(),
                old(self).cursor(),
                old(self).is_open(),
                ev,
            ),
            r == nav_step(old(self).is_open(), ev),
    {
        proof {
            use_type_invariant(&*self);
        }
        if !self.open {
            return Step::Ignored;
        }
        let n: usize = self.pages.len();
        match ev {
            Nav::Next => {
                if self.cursor + 1 < n {
                    self.cursor = self.cursor + 1;
                }
                Step::Render
            },
            Nav::Previous => {
                if self.cursor > 0 {
                    self.cursor = self.cursor - 1;
                }
                Step::Render
            },
            Nav::Jump(k) => {
                if k < n {
                    self.cursor = k;
                } else {
                    self.cursor = n - 1;
                }
                Step::Render
            },
            Nav::Close => {
                self.open = false;
                Step::Closed
            },
            Nav::Timeout => {
                self.open = false;
                Step::Closed
            },
        }
    }

    /// A render of the current page failed: the session ends, and the cursor
    /// stays where it is.
    pub fn render_failed(&mut self)
        ensures
            old(self).wf(),
            final(self).wf(),
            final(self).pages() == old(self).pages(),
            final(self).cursor() == old(self).cursor(),
            !final(self).is_open(),
    {
        proof {
            use_type_invariant(&*self);
        }
        self.open = false;
    }
}

/// A session at the last page stays there however many `Next` events come,
/// and stays open.
pub proof fn lemma_next_clamps_at_last(n: nat, k: nat)
    requires
        n >= 1,
    ensures
        nav_run(n, (n - 1) as nat, true, Seq::new(k, |i: int| Nav::Next)) == ((n - 1) as nat, true),
    decreases k,
{
    let evs = Seq::new(k, |i: int| Nav::Next);
    if k > 0 {
        assert(evs.drop_first() =~= Seq::new((k - 1) as nat, |i: int| Nav::Next));
        lemma_next_clamps_at_last(n, (k - 1) as nat);
    }
}

/// A session at the first page stays there however many `Previous` events
/// come, and stays open.
pub proof fn lemma_previous_clamps_at_first(n: nat, k: nat)
    requires
        n >= 1,
    ensures
        nav_run(n, 0, true, Seq::new(k, |i: int| Nav::Previous)) == (0nat, true),
    decreases k,
{
    let evs = Seq::new(k, |i: int| Nav::Previous);
    if k > 0 {
        assert(evs.drop_first() =~= Seq::new((k - 1) as nat, |i: int| Nav::Previous));
        lemma_previous_clamps_at_first(n, (k - 1) as nat);
    }
}

/// Whatever events it is handed, the cursor of a session never leaves its pages.
pub proof fn lemma_cursor_in_range(n: nat, c: nat, open: bool, evs: Seq<Nav>)
    requires
        c < n,
    ensures
        nav_run(n, c, open, evs).0 < n,
    decreases evs.len(),
{
    if evs.len() > 0 {
        let (c1, o1) = nav_state(n, c, open, evs[0]);
        lemma_cursor_in_range(n, c1, o1, evs.drop_first());
    }
}

/// Two sessions on the same pages at the same cursor render the same page:
/// rendering again without a change of state shows the same content.
pub proof fn lemma_render_idempotent(a: PageSession, b: PageSession)
    requires
        a.wf(),
        a.pages() == b.pages(),
        a.cursor() == b.cursor(),
    ensures
        a.shown() == b.shown(),
{
}

/// An ended session keeps its cursor and stays ended, whatever events follow.
pub proof fn lemma_closed_session_frozen(n: nat, c: nat, evs: Seq<Nav>)
    ensures
        nav_run(n, c, false, evs) == (c, false),
    decreases evs.len(),
{
    if evs.len() > 0 {
        lemma_closed_session_frozen(n, c, evs.drop_first());
    }
}

/// After a `Close` or a `Timeout`, later events change nothing: the cursor is
/// the one the session had when it ended.
pub proof fn lemma_no_change_after_end(n: nat, c: nat, end: Nav, evs: Seq<Nav>)
    requires
        ends_session(end),
    ensures
        nav_run(n, c, true, seq![end] + evs) == (c, false),
{
    assert((seq![end] + evs).drop_first() =~= evs);
    lemma_closed_session_frozen(n, c, evs);
}

} // verus!
