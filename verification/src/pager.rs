//! The cursor of a paginated view of the queue.
//!
//! A pager session lives for a fixed time from its creation. While it
//! lives, each interaction moves the page within the pages that the queue
//! has at that moment; once it has expired it reacts no more.

use crate::text::str_eq;
use vstd::prelude::*;

verus! {

/// Number of upcoming tracks shown on one page of the queue view.
pub const TRACKS_PER_PAGE: u32 = 6;

/// Seconds that a pager session lives from its creation.
pub const SESSION_TIMEOUT: u64 = 30;

/// Index of the last page of a queue of `queue_len` tracks shown
/// `page_size` at a time: `ceil(queue_len / page_size) - 1`, 0 for an empty
/// queue, and held at `u32::MAX`.
pub open spec fn spec_last_page(queue_len: nat, page_size: nat) -> nat
    recommends
        page_size > 0,
{
    if queue_len == 0 {
        0
    } else if (queue_len - 1) / (page_size as int) <= u32::MAX {
        ((queue_len - 1) / (page_size as int)) as nat
    } else {
        u32::MAX as nat
    }
}

/// Computes the index of the last page.
pub fn last_page(queue_len: usize, page_size: u32) -> (last: u32)
    requires
        page_size > 0,
    ensures
        last == spec_last_page(queue_len as nat, page_size as nat),
{
    if queue_len == 0 {
        0
    } else {
        let pages: u64 = (queue_len as u64 - 1) / (page_size as u64);
        if pages <= u32::MAX as u64 {
            pages as u32
        } else {
            u32::MAX
        }
    }
}

/// An interaction with the view.
#[derive(Debug, PartialEq, Eq, Structural, Clone, Copy)]
pub enum PagerEvent {
    Prev,
    Next,
    Reload,
}

/// What the caller does after an interaction.
#[derive(Debug, PartialEq, Eq, Structural, Clone, Copy)]
pub enum PagerAction {
    /// Render this page anew, together with its controls.
    Render { page: u32, last_page: u32 },
    /// The session has expired: stop listening, and leave the view as it
    /// is.
    Detach,
}

/// Which controls of the view cannot be used.
#[derive(Debug, PartialEq, Eq, Structural, Clone, Copy)]
pub struct Controls {
    pub prev_disabled: bool,
    pub next_disabled: bool,
}

/// The mathematical value of a [`PagerSession`].
pub struct PagerView {
    pub page: u32,
    pub last_page: u32,
    pub created_at: u64,
}

impl PagerView {
    /// The page lies within the pages of the queue.
    pub open spec fn wf(self) -> bool {
        self.page <= self.last_page
    }

    /// Whether the session has expired at the time `now`.
    pub open spec fn expired(self, now: u64) -> bool {
        now >= self.created_at && now - self.created_at >= SESSION_TIMEOUT
    }

    /// The page that `event` asks for, before it is held within the pages
    /// of the queue.
    pub open spec fn wanted(self, event: PagerEvent) -> int {
        match event {
            PagerEvent::Prev => self.page - 1,
            PagerEvent::Next => self.page + 1,
            PagerEvent::Reload => self.page as int,
        }
    }

    /// The session after `event` at the time `now`, with `queue_len` tracks
    /// queued. An expired session stays as it is. Otherwise the page moves
    /// by one or stays, held between 0 and the last page that the queue
    /// has now; the time of creation stays.
    pub open spec fn after(self, event: PagerEvent, queue_len: nat, now: u64) -> PagerView {
        if self.expired(now) {
            self
        } else {
            let last = spec_last_page(queue_len, TRACKS_PER_PAGE as nat);
            let wanted = self.wanted(event);
            PagerView {
                page: if wanted < 0 {
                    0
                } else if wanted > last {
                    last as u32
                } else {
                    wanted as u32
                },
                last_page: last as u32,
                created_at: self.created_at,
            }
        }
    }

    /// Which controls cannot be used: the way back on the first page, the
    /// way on on the last.
    pub open spec fn controls(self) -> Controls {
        Controls { prev_disabled: self.page == 0, next_disabled: self.page == self.last_page }
    }
}

/// One interaction as it reaches a session: the event, the length of the
/// queue and the time at that moment.
pub struct Interaction {
    pub event: PagerEvent,
    pub queue_len: nat,
    pub now: u64,
}

impl PagerView {
    /// The session after `interactions`, one after the other.
    pub open spec fn after_all(self, interactions: Seq<Interaction>) -> PagerView
        decreases interactions.len(),
    {
        if interactions.len() == 0 {
            self
        } else {
            let first = interactions[0];
            self.after(first.event, first.queue_len, first.now).after_all(
                interactions.drop_first(),
            )
        }
    }
}

/// The cursor of one view of the queue, with the time when the view was
/// made.
#[derive(Debug)]
pub struct PagerSession {
    page: u32,
    last_page: u32,
    created_at: u64,
}

impl View for PagerSession {
    type V = PagerView;

    closed spec fn view(&self) -> PagerView {
        PagerView { page: self.page, last_page: self.last_page, created_at: self.created_at }
    }
}

impl PagerSession {
    #[verifier::type_invariant]
    spec fn inv(self) -> bool {
        self.page <= self.last_page
    }

    /// A session made at the time `now` over a queue of `queue_len` tracks.
    /// It shows the page asked for, held within the pages of the queue, and
    /// the first page where none is asked for.
    pub fn new(page: Option<u32>, queue_len: usize, now: u64) -> (s: PagerSession)
        ensures
            s@.wf(),
            s@.last_page == spec_last_page(queue_len as nat, TRACKS_PER_PAGE as nat),
            s@.page == (match page {
                Some(p) => if p <= s@.last_page {
                    p
                } else {
                    s@.last_page
                },
                None => 0,
            }),
            s@.created_at == now,
    {
        let last = last_page(queue_len, TRACKS_PER_PAGE);
        let wanted = match page {
            Some(p) => p,
            None => 0,
        };
        PagerSession {
            page: if wanted <= last {
                wanted
            } else {
                last
            },
            last_page: last,
            created_at: now,
        }
    }

    /// The page shown.
    pub fn page(&self) -> (p: u32)
        ensures
            p == self@.page,
            self@.wf(),
    {
        proof {
            use_type_invariant(self);
        }
        self.page
    }

    /// The last page that the queue had when the view was rendered last.
    pub fn last_page(&self) -> (p: u32)
        ensures
            p == self@.last_page,
            self@.wf(),
    {
        proof {
            use_type_invariant(self);
        }
        self.last_page
    }

    /// The time when the session was made.
    pub fn created_at(&self) -> (t: u64)
        ensures
            t == self@.created_at,
    {
        self.created_at
    }

    /// Whether the session has expired at the time `now`.
    pub fn expired(&self, now: u64) -> (e: bool)
        ensures
            e == self@.expired(now),
    {
        now >= self.created_at && now - self.created_at >= SESSION_TIMEOUT
    }

    /// Which controls of the view cannot be used.
    pub fn controls(&self) -> (c: Controls)
        ensures
            c == self@.controls(),
    {
        Controls { prev_disabled: self.page == 0, next_disabled: self.page == self.last_page }
    }

    /// Takes one interaction at the time `now`, with `queue_len` tracks
    /// queued, and says what to do: see [`PagerView::after`].
    pub fn handle(&mut self, event: PagerEvent, queue_len: usize, now: u64) -> (action: PagerAction)
        ensures
            final(self)@ == old(self)@.after(event, queue_len as nat, now),
            final(self)@.wf(),
            action == (if old(self)@.expired(now) {
                PagerAction::Detach
            } else {
                PagerAction::Render { page: final(self)@.page, last_page: final(self)@.last_page }
            }),
    {
        proof {
            use_type_invariant(&*self);
        }
        if self.expired(now) {
            return PagerAction::Detach;
        }
        let last = last_page(queue_len, TRACKS_PER_PAGE);
        let page = match event {
            PagerEvent::Prev => if self.page == 0 {
                0
            } else if self.page - 1 > last {
                last
            } else {
                self.page - 1
            },
            PagerEvent::Next => if self.page >= last {
                last
            } else {
                self.page + 1
            },
            PagerEvent::Reload => if self.page > last {
                last
            } else {
                self.page
            },
        };
        *self = PagerSession { page, last_page: last, created_at: self.created_at };
        PagerAction::Render { page, last_page: last }
    }
}

impl PagerEvent {
    /// The event that the control named `id` stands for.
    pub open spec fn spec_from_custom_id(id: Seq<char>) -> Option<PagerEvent> {
        if id == "prev"@ {
            Some(PagerEvent::Prev)
        } else if id == "next"@ {
            Some(PagerEvent::Next)
        } else if id == "reload"@ {
            Some(PagerEvent::Reload)
        } else {
            None
        }
    }

    /// Reads the event off the name of the control that was used.
    pub fn from_custom_id(id: &str) -> (event: Option<PagerEvent>)
        ensures
            event == Self::spec_from_custom_id(id@),
    {
        if str_eq(id, "prev") {
            Some(PagerEvent::Prev)
        } else if str_eq(id, "next") {
            Some(PagerEvent::Next)
        } else if str_eq(id, "reload") {
            Some(PagerEvent::Reload)
        } else {
            None
        }
    }
}

/// One interaction leaves the page within the pages of the queue, and
/// never touches the time of creation.
pub proof fn lemma_after_in_range(s: PagerView, event: PagerEvent, queue_len: nat, now: u64)
    requires
        s.wf(),
    ensures
        s.after(event, queue_len, now).wf(),
        s.after(event, queue_len, now).created_at == s.created_at,
        s.expired(now) ==> s.after(event, queue_len, now) == s,
{
}

/// After any sequence of interactions the page lies between 0 and the last
/// page.
pub proof fn lemma_pager_in_range(s: PagerView, interactions: Seq<Interaction>)
    requires
        s.wf(),
    ensures
        0 <= s.after_all(interactions).page <= s.after_all(interactions).last_page,
        s.after_all(interactions).created_at == s.created_at,
    decreases interactions.len(),
{
    if interactions.len() > 0 {
        let first = interactions[0];
        lemma_after_in_range(s, first.event, first.queue_len, first.now);
        lemma_pager_in_range(
            s.after(first.event, first.queue_len, first.now),
            interactions.drop_first(),
        );
    }
}

/// On the last page the way on leads nowhere, and on the first page the
/// way back leads nowhere, while the queue keeps its length.
pub proof fn lemma_clamped_at_the_ends(s: PagerView, queue_len: nat, now: u64)
    requires
        s.wf(),
        !s.expired(now),
        s.last_page == spec_last_page(queue_len, TRACKS_PER_PAGE as nat),
    ensures
        s.page == s.last_page ==> s.after(PagerEvent::Next, queue_len, now) == s,
        s.page == 0 ==> s.after(PagerEvent::Prev, queue_len, now) == s,
        s.after(PagerEvent::Reload, queue_len, now) == s,
{
}

} // verus!
