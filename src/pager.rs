use vstd::prelude::*;
use std::collections::HashMap;
use crate::interaction::same_text;

verus! {

broadcast use vstd::std_specs::hash::group_hash_axioms;

/// How long a session accepts navigation, counted from its creation.
pub const SESSION_TTL_MILLIS: i64 = 300000;

/// One stored haiku as it was when the search ran: its id and its text.
#[derive(Debug)]
pub struct HaikuRef {
    pub id: i64,
    pub content: String,
}

impl HaikuRef {
    pub fn new(id: i64, content: String) -> (r: HaikuRef)
        ensures
            r.id == id,
            r.content@ == content@,
    {
        HaikuRef { id, content }
    }
}

/// A follow-up action on a paginated response.
#[derive(Clone, Copy, Debug, PartialEq, Eq, Structural)]
pub enum Navigation {
    Previous,
    Next,
}

/// The action that a navigation control with the custom id `id` stands for.
pub open spec fn navigation_of(id: Seq<char>) -> Option<Navigation> {
    if id == PREVIOUS_CUSTOM_ID@ {
        Some(Navigation::Previous)
    } else if id == NEXT_CUSTOM_ID@ {
        Some(Navigation::Next)
    } else {
        None
    }
}

pub const PREVIOUS_CUSTOM_ID: &'static str = "previous";
pub const NEXT_CUSTOM_ID: &'static str = "next";

impl Navigation {
    /// The action of the control whose custom id is `id`, if it is one of
    /// the two navigation controls.
    pub fn from_custom_id(id: &String) -> (r: Option<Navigation>)
        ensures
            r == navigation_of(id@),
    {
        if same_text(id, PREVIOUS_CUSTOM_ID) {
            Some(Navigation::Previous)
        } else if same_text(id, NEXT_CUSTOM_ID) {
            Some(Navigation::Next)
        } else {
            None
        }
    }
}

/// What a response shows of a result set: one item, its place in the set,
/// and whether the navigation controls are armed.
#[derive(Debug)]
pub struct Page {
    pub id: i64,
    pub content: String,
    pub position: usize,
    pub total: usize,
    pub controls: bool,
}

/// The page that shows `items[position]` out of `items`.
pub open spec fn shows(p: Page, items: Seq<HaikuRef>, position: int, controls: bool) -> bool {
    &&& 0 <= position < items.len()
    &&& p.id == items[position].id
    &&& p.content@ == items[position].content@
    &&& p.position == position
    &&& p.total == items.len()
    &&& p.controls == controls
}

/// The cursor after one navigation action; a move past either end leaves
/// it where it is.
pub open spec fn step_cursor(cursor: int, len: int, nav: Navigation) -> int {
    match nav {
        Navigation::Next => if cursor + 1 < len { cursor + 1 } else { cursor },
        Navigation::Previous => if cursor > 0 { cursor - 1 } else { cursor },
    }
}

/// The cursor after `k` repetitions of the same action.
pub open spec fn walk(cursor: int, len: int, nav: Navigation, k: nat) -> int
    decreases k,
{
    if k == 0 {
        cursor
    } else {
        walk(step_cursor(cursor, len, nav), len, nav, (k - 1) as nat)
    }
}

/// The deadline of a session created at `now`, clamped to the largest time.
pub open spec fn deadline_for(now: i64) -> i64 {
    if now <= i64::MAX - SESSION_TTL_MILLIS {
        (now + SESSION_TTL_MILLIS) as i64
    } else {
        i64::MAX
    }
}

/// A navigable multi-item result attached to one response message.
#[derive(Debug)]
pub struct SearchSession {
    pub items: Vec<HaikuRef>,
    pub cursor: usize,
    pub created_at: i64,
    pub deadline: i64,
}

impl SearchSession {
    pub open spec fn wf(&self) -> bool {
        &&& self.items@.len() >= 2
        &&& self.cursor < self.items@.len()
        &&& self.created_at <= self.deadline
    }

    /// The same session with its cursor moved to `cursor`.
    pub open spec fn at(self, cursor: int) -> SearchSession {
        SearchSession {
            items: self.items,
            cursor: cursor as usize,
            created_at: self.created_at,
            deadline: self.deadline,
        }
    }

    fn page(&self) -> (r: Page)
        requires
            self.wf(),
        ensures
            shows(r, self.items@, self.cursor as int, true),
    {
        let item = &self.items[self.cursor];
        Page {
            id: item.id,
            content: item.content.clone(),
            position: self.cursor,
            total: self.items.len(),
            controls: true,
        }
    }
}

/// What became of one navigation action.
#[derive(Debug)]
pub enum NavOutcome {
    /// The cursor moved: the response is to be edited to show this page.
    Moved(Page),
    /// The move would leave the result set: nothing changes.
    Unchanged,
    /// The session's deadline had passed: it is closed now and its controls
    /// are to be disabled.
    Expired,
    /// No live session is attached to that response.
    Unknown,
}

/// Relation between the sessions before and after `open(id, items, now)`
/// and its result.
pub open spec fn opened(
    before: Map<u64, SearchSession>,
    after: Map<u64, SearchSession>,
    id: u64,
    items: Vec<HaikuRef>,
    now: i64,
    r: bool,
) -> bool {
    &&& r == (items@.len() >= 2)
    &&& !r ==> after == before
    &&& r ==> after == before.insert(
        id,
        SearchSession { items: items, cursor: 0, created_at: now, deadline: deadline_for(now) },
    )
}

/// Relation between the sessions before and after `navigate(id, nav, now)`
/// and its outcome.
pub open spec fn navigated(
    before: Map<u64, SearchSession>,
    after: Map<u64, SearchSession>,
    id: u64,
    nav: Navigation,
    now: int,
    r: NavOutcome,
) -> bool {
    if !before.contains_key(id) {
        r is Unknown && after == before
    } else if now >= before[id].deadline {
        r is Expired && after == before.remove(id)
    } else {
        let s = before[id];
        let c = step_cursor(s.cursor as int, s.items@.len() as int, nav);
        &&& after == before.insert(id, s.at(c))
        &&& if c == s.cursor as int {
            r is Unchanged
        } else {
            r matches NavOutcome::Moved(p) && shows(p, s.items@, c, true)
        }
    }
}

/// The live search sessions, keyed by the id of the response message each
/// one is attached to.
pub struct Pager {
    sessions: HashMap<u64, SearchSession>,
}

impl Pager {
    pub closed spec fn view(&self) -> Map<u64, SearchSession> {
        self.sessions@
    }

    /// Every live session has at least two items and its cursor on one of
    /// them (see `lemma_live_session_wf`).
    pub closed spec fn wf(&self) -> bool {
        forall|id: u64| #[trigger] self.sessions@.contains_key(id) ==> self.sessions@[id].wf()
    }

    /// In a well-formed pager, each live session is well formed: its cursor
    /// is on one of its items.
    pub proof fn lemma_live_session_wf(&self, id: u64)
        requires
            self.wf(),
            self@.contains_key(id),
        ensures
            self@[id].wf(),
    {
    }

    pub fn new() -> (r: Pager)
        ensures
            r.wf(),
            r@ == Map::<u64, SearchSession>::empty(),
    {
        Pager { sessions: HashMap::new() }
    }

    /// Attaches a session over `items` to the response `session_id`, with
    /// its cursor on the first item. Pagination is armed only for two or
    /// more items: for fewer, nothing is created.
    pub fn open(&mut self, session_id: u64, items: Vec<HaikuRef>, now: i64) -> (r: bool)
        requires
            old(self).wf(),
        ensures
            final(self).wf(),
            opened(old(self)@, final(self)@, session_id, items, now, r),
    {
        if items.len() < 2 {
            return false;
        }
        let deadline: i64 = if now <= i64::MAX - SESSION_TTL_MILLIS {
            now + SESSION_TTL_MILLIS
        } else {
            i64::MAX
        };
        let session = SearchSession { items, cursor: 0, created_at: now, deadline };
        self.sessions.insert(session_id, session);
        true
    }

    /// Applies one navigation action, at time `now`, to the session attached
    /// to `session_id`.
    pub fn navigate(&mut self, session_id: u64, nav: Navigation, now: i64) -> (r: NavOutcome)
        requires
            old(self).wf(),
        ensures
            final(self).wf(),
            navigated(old(self)@, final(self)@, session_id, nav, now as int, r),
    {
        let taken = self.sessions.remove(&session_id);
        match taken {
            None => {
                proof {
                    assert(self.sessions@ =~= old(self).sessions@);
                }
                NavOutcome::Unknown
            },
            Some(s) => {
                if now >= s.deadline {
                    NavOutcome::Expired
                } else {
                    let len = s.items.len();
                    let c: usize = match nav {
                        Navigation::Next => if s.cursor + 1 < len { s.cursor + 1 } else { s.cursor },
                        Navigation::Previous => if s.cursor > 0 { s.cursor - 1 } else { s.cursor },
                    };
                    let moved = c != s.cursor;
                    let s2 = SearchSession {
                        items: s.items,
                        cursor: c,
                        created_at: s.created_at,
                        deadline: s.deadline,
                    };
                    let out = if moved {
                        NavOutcome::Moved(s2.page())
                    } else {
                        NavOutcome::Unchanged
                    };
                    self.sessions.insert(session_id, s2);
                    proof {
                        assert(self.sessions@ =~= old(self).sessions@.insert(
                            session_id,
                            old(self).sessions@[session_id].at(c as int),
                        ));
                    }
                    out
                }
            },
        }
    }

    /// Closes the session attached to `session_id` if its deadline has
    /// passed at `now`; tells whether it did.
    pub fn close_if_expired(&mut self, session_id: u64, now: i64) -> (r: bool)
        requires
            old(self).wf(),
        ensures
            final(self).wf(),
            r == (old(self)@.contains_key(session_id) && now >= old(self)@[session_id].deadline),
            r ==> final(self)@ == old(self)@.remove(session_id),
            !r ==> final(self)@ == old(self)@,
    {
        let expired = match self.sessions.get(&session_id) {
            Some(s) => now >= s.deadline,
            None => false,
        };
        if expired {
            self.sessions.remove(&session_id);
        }
        expired
    }

    /// The page that the response `session_id` currently shows, if a session
    /// is attached to it.
    pub fn current_page(&self, session_id: u64) -> (r: Option<Page>)
        requires
            self.wf(),
        ensures
            !self@.contains_key(session_id) ==> r is None,
            self@.contains_key(session_id) ==> (r matches Some(p) && shows(
                p,
                self@[session_id].items@,
                self@[session_id].cursor as int,
                true,
            )),
    {
        match self.sessions.get(&session_id) {
            Some(s) => Some(s.page()),
            None => None,
        }
    }

    /// Whether a session is attached to the response `session_id`.
    pub fn is_active(&self, session_id: u64) -> (r: bool)
        ensures
            r == self@.contains_key(session_id),
    {
        self.sessions.contains_key(&session_id)
    }
}

/// Repeating `Next` from the first item reaches item `min(k, len - 1)`;
/// repeating `Previous` from the last item reaches `max(len - 1 - k, 0)`.
proof fn lemma_walk_clamped(cursor: int, len: int, nav: Navigation, k: nat)
    requires
        0 <= cursor < len,
    ensures
        nav is Next ==> walk(cursor, len, nav, k) == if cursor + k < len { cursor + k } else { len - 1 },
        nav is Previous ==> walk(cursor, len, nav, k) == if cursor - k >= 0 { cursor - k } else { 0 },
    decreases k,
{
    if k > 0 {
        lemma_walk_clamped(step_cursor(cursor, len, nav), len, nav, (k - 1) as nat);
    }
}

/// Paging through `len >= 2` results: from the first item, `len - 1` times
/// `Next` reaches the last item, and a further `Next` leaves it there; from
/// the last item, `len - 1` times `Previous` comes back to the first, and a
/// further `Previous` leaves it there.
pub proof fn lemma_page_through(len: int)
    requires
        len >= 2,
    ensures
        walk(0, len, Navigation::Next, (len - 1) as nat) == len - 1,
        step_cursor(len - 1, len, Navigation::Next) == len - 1,
        walk(len - 1, len, Navigation::Previous, (len - 1) as nat) == 0,
        step_cursor(0, len, Navigation::Previous) == 0,
{
    lemma_walk_clamped(0, len, Navigation::Next, (len - 1) as nat);
    lemma_walk_clamped(len - 1, len, Navigation::Previous, (len - 1) as nat);
}

/// Each arrival of an action is applied once: one `navigate` moves the
/// cursor of a live session by at most one place and keeps it in range, so
/// an action sent `k` times moves it by at most `k` places.
pub proof fn lemma_one_step_per_action(
    before: Map<u64, SearchSession>,
    after: Map<u64, SearchSession>,
    id: u64,
    nav: Navigation,
    now: int,
    r: NavOutcome,
)
    requires
        navigated(before, after, id, nav, now, r),
        before.contains_key(id),
        before[id].wf(),
        now < before[id].deadline,
    ensures
        after.contains_key(id),
        after[id].items == before[id].items,
        after[id].cursor < after[id].items@.len(),
        after[id].cursor as int == step_cursor(before[id].cursor as int, before[id].items@.len() as int, nav),
        -1 <= after[id].cursor as int - before[id].cursor as int <= 1,
{
}

/// Before its deadline, `Next` on a live session whose cursor is not on the
/// last item moves it one place on and shows that item, numbered
/// `cursor + 2` of `n`; on the last item it changes nothing.
pub proof fn lemma_next_step(
    before: Map<u64, SearchSession>,
    after: Map<u64, SearchSession>,
    id: u64,
    now: int,
    r: NavOutcome,
)
    requires
        before.contains_key(id),
        before[id].wf(),
        now < before[id].deadline,
        navigated(before, after, id, Navigation::Next, now, r),
    ensures
        before[id].cursor + 1 < before[id].items@.len() ==> {
            &&& after[id].cursor == before[id].cursor + 1
            &&& r matches NavOutcome::Moved(p) && shows(p, before[id].items@, before[id].cursor + 1, true)
        },
        before[id].cursor + 1 == before[id].items@.len() ==> (r is Unchanged && after == before),
{
    if before[id].cursor + 1 == before[id].items@.len() {
        assert(before[id].at(before[id].cursor as int) == before[id]);
        assert(after =~= before);
    }
}

/// Before its deadline, `Previous` on a live session whose cursor is not on
/// the first item moves it one place back and shows that item, numbered
/// `cursor` of `n`; on the first item it changes nothing.
pub proof fn lemma_previous_step(
    before: Map<u64, SearchSession>,
    after: Map<u64, SearchSession>,
    id: u64,
    now: int,
    r: NavOutcome,
)
    requires
        before.contains_key(id),
        before[id].wf(),
        now < before[id].deadline,
        navigated(before, after, id, Navigation::Previous, now, r),
    ensures
        before[id].cursor > 0 ==> {
            &&& after[id].cursor == before[id].cursor - 1
            &&& r matches NavOutcome::Moved(p) && shows(p, before[id].items@, before[id].cursor - 1, true)
        },
        before[id].cursor == 0 ==> (r is Unchanged && after == before),
{
    if before[id].cursor == 0 {
        assert(before[id].at(0) == before[id]);
        assert(after =~= before);
    }
}

/// Once a session's deadline has passed, a navigation action on it closes
/// it, and any later action on that response changes nothing: the session
/// is not brought back.
pub proof fn lemma_expired_stays_closed(
    before: Map<u64, SearchSession>,
    mid: Map<u64, SearchSession>,
    after: Map<u64, SearchSession>,
    id: u64,
    nav1: Navigation,
    nav2: Navigation,
    t1: int,
    t2: int,
    r1: NavOutcome,
    r2: NavOutcome,
)
    requires
        before.contains_key(id),
        t1 >= before[id].deadline,
        navigated(before, mid, id, nav1, t1, r1),
        navigated(mid, after, id, nav2, t2, r2),
    ensures
        r1 is Expired,
        !mid.contains_key(id),
        r2 is Unknown,
        after == mid,
{
}

} // verus!
