use vstd::prelude::*;
use crate::commands::Commands;
use crate::pager::{
    navigated, opened, shows, HaikuRef, NavOutcome, Navigation, Page, SearchSession,
    SESSION_TTL_MILLIS,
};

verus! {

pub const MILLIS_PER_SECOND: i128 = 1000;
pub const SECONDS_PER_MINUTE: i128 = 60;
pub const SECONDS_PER_HOUR: i128 = 3600;
pub const SECONDS_PER_DAY: i128 = 86400;

/// How long the bot has been running, in whole days, hours and minutes.
#[derive(Clone, Copy, Debug, PartialEq, Eq, Structural)]
pub struct Uptime {
    pub days: i64,
    pub hours: i64,
    pub minutes: i64,
}

/// The whole seconds from `start` to `now` (both in milliseconds since the
/// epoch); none where `now` is not after `start`.
pub open spec fn elapsed_seconds(start: i64, now: i64) -> int {
    if now > start {
        (now - start) / (MILLIS_PER_SECOND as int)
    } else {
        0
    }
}

/// The breakdown of `secs` seconds into days, the hours left over, and the
/// minutes left over after those.
pub open spec fn uptime_of(secs: int) -> Uptime {
    Uptime {
        days: (secs / (SECONDS_PER_DAY as int)) as i64,
        hours: ((secs % (SECONDS_PER_DAY as int)) / (SECONDS_PER_HOUR as int)) as i64,
        minutes: ((secs % (SECONDS_PER_HOUR as int)) / (SECONDS_PER_MINUTE as int)) as i64,
    }
}

impl Uptime {
    /// The uptime from `start_millis` to `now_millis`.
    pub fn between(start_millis: i64, now_millis: i64) -> (r: Uptime)
        ensures
            r == uptime_of(elapsed_seconds(start_millis, now_millis)),
            0 <= r.hours < 24,
            0 <= r.minutes < 60,
    {
        let secs: i128 = if now_millis > start_millis {
            (now_millis as i128 - start_millis as i128) / MILLIS_PER_SECOND
        } else {
            0
        };
        assert(0 <= secs <= i64::MAX);
        Uptime {
            days: (secs / SECONDS_PER_DAY) as i64,
            hours: ((secs % SECONDS_PER_DAY) / SECONDS_PER_HOUR) as i64,
            minutes: ((secs % SECONDS_PER_HOUR) / SECONDS_PER_MINUTE) as i64,
        }
    }
}

/// The first response to a command.
#[derive(Debug)]
pub enum Reply {
    /// The requested haiku does not exist, or the command came from outside
    /// a server.
    NotFound,
    /// The fixed message of a search without results.
    NoResults,
    Uptime(Uptime),
    Syllables { phrase: String, count: u64 },
    /// The phrase could not be counted.
    CountFailed,
    Haiku(HaikuRef),
    /// One item of search results, with navigation controls where there is
    /// more than one.
    Page(Page),
}

/// What the dispatcher needs done for a command before it can reply.
#[derive(Debug)]
pub enum Action {
    /// Nothing: send this reply.
    Reply(Reply),
    /// Read the start time and reply with the uptime.
    ReportUptime,
    /// Count the syllables of the phrase and reply with `count_reply`.
    CountSyllables(String),
    /// Look up a haiku of the server by id and reply with `haiku_reply`.
    FetchHaiku { server_id: u64, id: i64 },
    /// Pick a random haiku of the server and reply with `haiku_reply`.
    FetchRandomHaiku { server_id: u64 },
    /// Search the server's haikus and reply with `search_reply`.
    SearchHaikus { server_id: u64, keywords: Vec<String> },
}

/// Whether `r` is the action for the command `c` invoked from `guild_id`.
pub open spec fn invoked(c: Commands, guild_id: Option<u64>, r: Action) -> bool {
    match c {
        Commands::Uptime(_) => r is ReportUptime,
        Commands::Count(cc) => r matches Action::CountSyllables(p) && p@ == cc.phrase@,
        Commands::GetHaiku(g) => match guild_id {
            Some(s) => r == Action::FetchHaiku { server_id: s, id: g.id },
            None => r == Action::Reply(Reply::NotFound),
        },
        Commands::RandomHaiku(_) => match guild_id {
            Some(s) => r == Action::FetchRandomHaiku { server_id: s },
            None => r == Action::Reply(Reply::NotFound),
        },
        Commands::Search(sc) => match guild_id {
            Some(s) => r matches Action::SearchHaikus { server_id, keywords } && server_id == s
                && same_words(keywords@, sc.keywords@),
            None => r == Action::Reply(Reply::NoResults),
        },
    }
}

/// Whether `a` and `b` hold the same texts in the same order.
pub open spec fn same_words(a: Seq<String>, b: Seq<String>) -> bool {
    &&& a.len() == b.len()
    &&& forall|k: int| 0 <= k < a.len() ==> (#[trigger] a[k])@ == b[k]@
}

fn copy_words(v: &Vec<String>) -> (r: Vec<String>)
    ensures
        same_words(r@, v@),
{
    let mut r: Vec<String> = Vec::new();
    let mut i: usize = 0;
    while i < v.len()
        invariant
            i <= v@.len(),
            r@.len() == i,
            forall|k: int| 0 <= k < i ==> (#[trigger] r@[k])@ == v@[k]@,
        decreases v@.len() - i,
    {
        r.push(v[i].clone());
        i = i + 1;
    }
    r
}

impl Commands {
    /// Routes the command to its handler: what is to be fetched or computed
    /// before the first response, or that response itself.
    pub fn invoke(&self, guild_id: Option<u64>) -> (r: Action)
        ensures
            invoked(*self, guild_id, r),
    {
        match self {
            Commands::Uptime(_) => Action::ReportUptime,
            Commands::Count(c) => Action::CountSyllables(c.phrase.clone()),
            Commands::GetHaiku(g) => match guild_id {
                Some(s) => Action::FetchHaiku { server_id: s, id: g.id },
                None => Action::Reply(Reply::NotFound),
            },
            Commands::RandomHaiku(_) => match guild_id {
                Some(s) => Action::FetchRandomHaiku { server_id: s },
                None => Action::Reply(Reply::NotFound),
            },
            Commands::Search(sc) => match guild_id {
                Some(s) => Action::SearchHaikus { server_id: s, keywords: copy_words(&sc.keywords) },
                None => Action::Reply(Reply::NoResults),
            },
        }
    }
}

/// The reply to a count: the syllable count, or a notice where the phrase
/// could not be counted.
pub fn count_reply(phrase: String, count: Option<u64>) -> (r: Reply)
    ensures
        match count {
            Some(n) => r == (Reply::Syllables { phrase, count: n }),
            None => r is CountFailed,
        },
{
    match count {
        Some(n) => Reply::Syllables { phrase, count: n },
        None => Reply::CountFailed,
    }
}

/// The reply to a fetch: the haiku found, or a notice that there is none.
pub fn haiku_reply(found: Option<HaikuRef>) -> (r: Reply)
    ensures
        match found {
            Some(h) => r == Reply::Haiku(h),
            None => r is NotFound,
        },
{
    match found {
        Some(h) => Reply::Haiku(h),
        None => Reply::NotFound,
    }
}

/// Whether `r` is the first response to a search that found `results`.
pub open spec fn search_replied(results: Seq<HaikuRef>, r: Reply) -> bool {
    if results.len() == 0 {
        r is NoResults
    } else {
        r matches Reply::Page(p) && shows(p, results, 0, results.len() >= 2)
    }
}

/// The first response to a search: the fixed "no results" message, or the
/// first result, with navigation controls where there are two or more.
pub fn search_reply(results: &Vec<HaikuRef>) -> (r: Reply)
    ensures
        search_replied(results@, r),
{
    if results.len() == 0 {
        Reply::NoResults
    } else {
        let first = &results[0];
        Reply::Page(Page {
            id: first.id,
            content: first.content.clone(),
            position: 0,
            total: results.len(),
            controls: results.len() >= 2,
        })
    }
}

/// A search with fewer than two results arms no pagination: its reply has
/// no navigation controls (or is the "no results" message), handing its
/// results to the pager creates no session on the fresh response, and a
/// later navigation action on that response finds none and changes nothing.
pub proof fn lemma_short_search_has_no_session(
    results: Vec<HaikuRef>,
    r: Reply,
    before: Map<u64, SearchSession>,
    after: Map<u64, SearchSession>,
    later: Map<u64, SearchSession>,
    id: u64,
    now: i64,
    created: bool,
    nav: Navigation,
    t: int,
    outcome: NavOutcome,
)
    requires
        results@.len() < 2,
        !before.contains_key(id),
        search_replied(results@, r),
        opened(before, after, id, results, now, created),
        navigated(after, later, id, nav, t, outcome),
    ensures
        !created,
        after == before,
        !after.contains_key(id),
        outcome is Unknown,
        later == after,
        results@.len() == 0 ==> r is NoResults,
        results@.len() == 1 ==> (r matches Reply::Page(p) && !p.controls && p.id == results@[0].id
            && p.total == 1),
{
}

/// A search with `n >= 2` results shows the first of them, numbered 1 of
/// `n`, with navigation controls; handing them to the pager creates a
/// session on the first item that holds the results in their order and
/// accepts actions for `SESSION_TTL_MILLIS` after its creation.
pub proof fn lemma_long_search_opens_session(
    results: Vec<HaikuRef>,
    r: Reply,
    before: Map<u64, SearchSession>,
    after: Map<u64, SearchSession>,
    id: u64,
    now: i64,
    created: bool,
)
    requires
        results@.len() >= 2,
        search_replied(results@, r),
        opened(before, after, id, results, now, created),
    ensures
        created,
        after.contains_key(id),
        after[id].cursor == 0,
        after[id].items@ == results@,
        after[id].created_at == now,
        now <= i64::MAX - SESSION_TTL_MILLIS ==> after[id].deadline == now + SESSION_TTL_MILLIS,
        r matches Reply::Page(p) && p.controls && p.position == 0 && p.total == results@.len()
            && p.id == results@[0].id && p.content@ == results@[0].content@,
{
}

} // verus!
