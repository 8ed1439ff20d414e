//! The recurring menu publisher's gate.
//!
//! Once per tick the worker asks: is the publication window open (configured
//! weekday and hour), and was today's menu already posted? Only a `Publish`
//! answer lets the host fetch, convert and post the menu; the host then
//! marks the date as posted, and every later tick in the same window is a
//! no-op. That per-date flag is the idempotency guard: however often the
//! tick fires, a date sees at most one publication.

use std::collections::HashMap;
use vstd::prelude::*;

verus! {

broadcast use vstd::std_specs::hash::group_hash_axioms;

/// One row of the publication record, as the store keeps it.
#[derive(Debug, Clone)]
pub struct Mensaplan {
    pub date: String,
    pub posted: bool,
    pub plan_hash: String,
}

/// The configured publication window: a weekday (0 = Monday .. 6 = Sunday)
/// and an hour of that day.
#[derive(Debug, Clone, Copy, PartialEq, Eq, Structural)]
pub struct MenuSchedule {
    pub post_on_day: u8,
    pub post_at_hour: u8,
}

/// What the wall clock reads at a tick: weekday and hour for the window
/// test, and the calendar date as an opaque key for the idempotency guard.
#[derive(Debug, Clone, Copy, PartialEq, Eq, Structural)]
pub struct MenuClock {
    pub weekday: u8,
    pub hour: u8,
    pub date_key: u32,
}

/// The publisher's verdict for one tick.
#[derive(Debug, Clone, Copy, PartialEq, Eq, Structural)]
pub enum MenuDecision {
    /// The clock is outside the publication window.
    NotDue,
    /// In the window, but today's menu is already out.
    AlreadyPosted,
    /// In the window and not yet posted: publish now.
    Publish,
}

/// The window is open: weekday and hour both match the schedule.
pub open spec fn is_due(sched: MenuSchedule, clock: MenuClock) -> bool {
    clock.weekday == sched.post_on_day && clock.hour == sched.post_at_hour
}

/// The record says this date's menu is already posted.
pub open spec fn posted_on(log: Map<u32, bool>, date_key: u32) -> bool {
    log.contains_key(date_key) && log[date_key]
}

/// The verdict a tick must reach, as a function of record and clock.
pub open spec fn decision_spec(log: Map<u32, bool>, sched: MenuSchedule, clock: MenuClock)
    -> MenuDecision {
    if !is_due(sched, clock) {
        MenuDecision::NotDue
    } else if posted_on(log, clock.date_key) {
        MenuDecision::AlreadyPosted
    } else {
        MenuDecision::Publish
    }
}

/// The per-date posted flags, keyed by calendar date.
pub struct MenuLog {
    flags: HashMap<u32, bool>,
}

impl View for MenuLog {
    type V = Map<u32, bool>;

    closed spec fn view(&self) -> Map<u32, bool> {
        self.flags@
    }
}

impl MenuLog {
    pub fn new() -> (r: MenuLog)
        ensures
            r@ == Map::<u32, bool>::empty(),
    {
        MenuLog { flags: HashMap::new() }
    }

    /// Load one stored row into the log (used to replay the store's rows
    /// after a restart).
    pub fn set_flag(&mut self, date_key: u32, posted: bool)
        ensures
            final(self)@ == old(self)@.insert(date_key, posted),
    {
        self.flags.insert(date_key, posted);
    }

    /// One tick of the publisher: publish exactly when the window is open
    /// and this date was never posted.
    pub fn tick(&self, sched: MenuSchedule, clock: MenuClock) -> (r: MenuDecision)
        ensures
            r == decision_spec(self@, sched, clock),
    {
        if !(clock.weekday == sched.post_on_day && clock.hour == sched.post_at_hour) {
            return MenuDecision::NotDue;
        }
        let flag = self.flags.get(&clock.date_key);
        match flag {
            Some(b) => {
                if *b {
                    MenuDecision::AlreadyPosted
                } else {
                    MenuDecision::Publish
                }
            },
            None => MenuDecision::Publish,
        }
    }

    /// Record that this date's menu is out.
    pub fn mark_posted(&mut self, date_key: u32)
        ensures
            final(self)@ == old(self)@.insert(date_key, true),
    {
        self.flags.insert(date_key, true);
    }
}

/// Publication is idempotent: once a date is marked posted, no tick for
/// that date can decide `Publish` again — so publishing and marking, then
/// ticking any number of further times in the same window, yields exactly
/// one externally visible post.
pub proof fn lemma_publish_at_most_once(
    log: Map<u32, bool>,
    sched: MenuSchedule,
    clock: MenuClock,
)
    ensures
        decision_spec(log.insert(clock.date_key, true), sched, clock) != MenuDecision::Publish,
{
}

} // verus!
