//! The groups of each caller, kept for a bounded time so that the directory
//! is not asked again for what it has just said.

use vstd::prelude::*;
use crate::groups::{DirectoryReply, failure_of_reply, get_groups, groups_of_reply};
use crate::models::{Group, duplicate_groups, group_views};
use crate::table::Table;

verus! {

/// The time, in seconds, for which fetched groups are used by default.
pub const DEFAULT_TTL: u64 = 60;

/// The groups fetched for one caller, and when.
#[derive(Debug)]
pub struct GroupCacheEntry {
    pub fetched_at: u64,
    pub groups: Vec<Group>,
}

/// The groups of each caller that were fetched, by email.
#[derive(Debug)]
pub struct GroupCache {
    ttl: u64,
    entries: Table<GroupCacheEntry>,
}

/// What a cache holds: how long an entry may be used, in seconds, and the
/// entry of each email.
pub struct CacheView {
    pub ttl: u64,
    pub entries: Map<Seq<char>, GroupCacheEntry>,
}

/// What `get_groups` has to say: that the directory must be asked first, or
/// the caller's groups, with the reason where the directory gave none.
pub enum GroupsStep {
    Fetch,
    Done { groups: Vec<Group>, failure: Option<String> },
}

/// The age at `now` of what was fetched at `fetched_at`, in seconds; none
/// where the clock stands before the fetch.
pub open spec fn age(fetched_at: u64, now: u64) -> int {
    if now >= fetched_at {
        now - fetched_at
    } else {
        0
    }
}

/// Whether the cache holds groups for `email` that may still be used at
/// `now`: an entry whose age is below the time to live.
pub open spec fn fresh(cache: CacheView, email: Seq<char>, now: u64) -> bool {
    cache.entries.contains_key(email) && age(cache.entries[email].fetched_at, now) < cache.ttl
}

/// Whether `step`, with the cache going from `before` to `after`, is what
/// one step of resolving the groups of `email` at `now` gives. A fresh entry
/// is handed out and nothing changes. Else the directory is asked; its
/// reply, whatever it is, becomes the one entry of `email`, and is handed
/// out.
pub open spec fn cache_step(
    before: CacheView,
    after: CacheView,
    email: Seq<char>,
    now: u64,
    reply: Option<DirectoryReply>,
    org_domain: Seq<char>,
    step: GroupsStep,
) -> bool {
    if fresh(before, email, now) {
        after == before && (step matches GroupsStep::Done { groups, failure } && groups@
            == before.entries[email].groups@ && failure is None)
    } else {
        match reply {
            None => after == before && step is Fetch,
            Some(r) => refreshed(before, after, email, now, r, org_domain, step),
        }
    }
}

/// Whether `step`, with the cache going from `before` to `after`, is what
/// taking in the directory's `reply` for `email` at `now` gives: the groups
/// of the reply become the one entry of `email`, fetched at `now`, in place
/// of whatever was held for it; no other entry changes; and the groups are
/// handed out, with the reason where the reply gave none.
pub open spec fn refreshed(
    before: CacheView,
    after: CacheView,
    email: Seq<char>,
    now: u64,
    reply: DirectoryReply,
    org_domain: Seq<char>,
    step: GroupsStep,
) -> bool {
    &&& after.ttl == before.ttl
    &&& after.entries.contains_key(email)
    &&& after.entries == before.entries.insert(email, after.entries[email])
    &&& after.entries[email].fetched_at == now
    &&& group_views(after.entries[email].groups@) == groups_of_reply(reply, org_domain)
    &&& step matches GroupsStep::Done { groups, failure } && groups@
        == after.entries[email].groups@ && failure == failure_of_reply(reply)
}

impl View for GroupCache {
    type V = CacheView;

    closed spec fn view(&self) -> CacheView {
        CacheView { ttl: self.ttl, entries: self.entries@ }
    }
}

impl GroupCache {
    /// No email is held twice.
    pub closed spec fn wf(&self) -> bool {
        self.entries.wf()
    }

    /// An empty cache whose entries may be used for `ttl` seconds.
    pub fn new(ttl: u64) -> (cache: Self)
        ensures
            cache.wf(),
            cache@.ttl == ttl,
            cache@.entries == Map::<Seq<char>, GroupCacheEntry>::empty(),
    {
        GroupCache { ttl, entries: Table::new() }
    }

    /// The time for which an entry may be used, in seconds.
    pub fn ttl(&self) -> (ttl: u64)
        ensures
            ttl == self@.ttl,
    {
        self.ttl
    }

    /// The groups held for `email`, where they may still be used at `now`.
    pub fn lookup(&self, email: &str, now: u64) -> (r: Option<Vec<Group>>)
        requires
            self.wf(),
        ensures
            match r {
                Some(groups) => fresh(self@, email@, now) && groups@
                    == self@.entries[email@].groups@,
                None => !fresh(self@, email@, now),
            },
    {
        match self.entries.get(&email.to_owned()) {
            None => None,
            Some(entry) => {
                let age: u64 = if now >= entry.fetched_at {
                    now - entry.fetched_at
                } else {
                    0
                };
                if age < self.ttl {
                    Some(duplicate_groups(&entry.groups))
                } else {
                    None
                }
            },
        }
    }

    /// Holds `groups` for `email` as fetched at `now`, in place of what was
    /// held for that email before.
    pub fn store(&mut self, email: &str, now: u64, groups: Vec<Group>)
        requires
            old(self).wf(),
        ensures
            final(self).wf(),
            final(self)@.ttl == old(self)@.ttl,
            final(self)@.entries == old(self)@.entries.insert(
                email@,
                GroupCacheEntry { fetched_at: now, groups },
            ),
    {
        self.entries.insert(email.to_owned(), GroupCacheEntry { fetched_at: now, groups });
    }

    /// One step of resolving the groups of `email` at `now`. Groups held and
    /// still fresh are handed out. Else, where nothing was fetched, asks for
    /// a fetch; where `reply` holds what the directory said, holds the
    /// groups of that reply for `email` from `now` on and hands them out. A
    /// reply that failed gives no groups, and is held as such.
    pub fn get_groups(
        &mut self,
        email: &str,
        now: u64,
        reply: Option<DirectoryReply>,
        org_domain: &str,
    ) -> (step: GroupsStep)
        requires
            old(self).wf(),
        ensures
            final(self).wf(),
            cache_step(old(self)@, final(self)@, email@, now, reply, org_domain@, step),
    {
        if let Some(groups) = self.lookup(email, now) {
            return GroupsStep::Done { groups, failure: None };
        }
        match reply {
            None => GroupsStep::Fetch,
            Some(r) => self.refresh(email, now, r, org_domain),
        }
    }

    /// Takes in what the directory said for `email` at `now`: the groups of
    /// `reply` are held for `email` from `now` on, in place of whatever was
    /// held, and are handed out. The last reply taken in is the one held.
    pub fn refresh(&mut self, email: &str, now: u64, reply: DirectoryReply, org_domain: &str) -> (step:
        GroupsStep)
        requires
            old(self).wf(),
        ensures
            final(self).wf(),
            refreshed(old(self)@, final(self)@, email@, now, reply, org_domain@, step),
    {
        let resolved = get_groups(reply, org_domain);
        let copy = duplicate_groups(&resolved.groups);
        self.store(email, now, resolved.groups);
        assert(self@.entries =~= old(self)@.entries.insert(email@, self@.entries[email@]));
        GroupsStep::Done { groups: copy, failure: resolved.failure }
    }
}

/// Asked twice for the same email within the time to live, the cache gives
/// the same groups the second time, asks the directory for nothing and does
/// not change.
pub proof fn lemma_second_call_within_ttl_is_a_hit(
    start: CacheView,
    middle: CacheView,
    end: CacheView,
    email: Seq<char>,
    first_at: u64,
    second_at: u64,
    first_reply: Option<DirectoryReply>,
    second_reply: Option<DirectoryReply>,
    org_domain: Seq<char>,
    first: GroupsStep,
    second: GroupsStep,
)
    requires
        cache_step(start, middle, email, first_at, first_reply, org_domain, first),
        cache_step(middle, end, email, second_at, second_reply, org_domain, second),
        first is Done,
        !fresh(start, email, first_at),
        first_at <= second_at < first_at + start.ttl,
    ensures
        end == middle,
        second matches GroupsStep::Done { groups, failure } && groups@ == first->groups@,
{
}

/// Asked again for the same email once the time to live has passed since
/// the fetch, the cache asks the directory again.
pub proof fn lemma_call_after_ttl_fetches_again(
    start: CacheView,
    middle: CacheView,
    end: CacheView,
    email: Seq<char>,
    first_at: u64,
    second_at: u64,
    first_reply: Option<DirectoryReply>,
    org_domain: Seq<char>,
    first: GroupsStep,
    second: GroupsStep,
)
    requires
        cache_step(start, middle, email, first_at, first_reply, org_domain, first),
        cache_step(middle, end, email, second_at, None, org_domain, second),
        first is Done,
        !fresh(start, email, first_at),
        second_at >= first_at + start.ttl,
    ensures
        second is Fetch,
        end == middle,
{
}

/// Of two replies taken in for the same email, the later one is held: the
/// entry is replaced whole, and no other entry changes.
pub proof fn lemma_last_reply_is_held(
    start: CacheView,
    middle: CacheView,
    end: CacheView,
    email: Seq<char>,
    first_at: u64,
    second_at: u64,
    first_reply: DirectoryReply,
    second_reply: DirectoryReply,
    org_domain: Seq<char>,
    first: GroupsStep,
    second: GroupsStep,
)
    requires
        refreshed(start, middle, email, first_at, first_reply, org_domain, first),
        refreshed(middle, end, email, second_at, second_reply, org_domain, second),
    ensures
        end.entries[email].fetched_at == second_at,
        group_views(end.entries[email].groups@) == groups_of_reply(second_reply, org_domain),
        end.entries == start.entries.insert(email, end.entries[email]),
{
    assert(end.entries =~= start.entries.insert(email, end.entries[email]));
}

/// A reply that cannot be read, like a call that failed, gives the caller an
/// empty list of groups and no error.
pub proof fn lemma_unusable_reply_gives_no_groups(
    before: CacheView,
    after: CacheView,
    email: Seq<char>,
    now: u64,
    reply: DirectoryReply,
    org_domain: Seq<char>,
    step: GroupsStep,
)
    requires
        cache_step(before, after, email, now, Some(reply), org_domain, step),
        !fresh(before, email, now),
        !(reply is Memberships),
    ensures
        step matches GroupsStep::Done { groups, failure } && groups@.len() == 0 && failure is Some,
{
    assert(group_views(after.entries[email].groups@).len() == 0);
}

} // verus!
