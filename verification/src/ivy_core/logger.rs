//! Which log records of a device are sent, and the ids of its spans.

use vstd::prelude::*;

verus! {

/// How much a log record matters.
#[derive(Clone, Copy, PartialEq, Eq, Structural)]
pub enum Level {
    Error,
    Warn,
    Info,
    Debug,
    Trace,
}

impl Level {
    /// How talkative a log with records up to this level is.
    pub open spec fn verbosity(self) -> int {
        match self {
            Level::Error => 1,
            Level::Warn => 2,
            Level::Info => 3,
            Level::Debug => 4,
            Level::Trace => 5,
        }
    }
}

/// Compares two levels with `<=` of `tracing::Level`. Believed of it: a level is at most another
/// one where a log up to it is at most as talkative.
#[verifier::external_body]
fn at_most(level: Level, max_level: Level) -> (within: bool)
    ensures
        within == (level.verbosity() <= max_level.verbosity()),
{
    let convert = |level: Level| match level {
        Level::Error => tracing::Level::ERROR,
        Level::Warn => tracing::Level::WARN,
        Level::Info => tracing::Level::INFO,
        Level::Debug => tracing::Level::DEBUG,
        Level::Trace => tracing::Level::TRACE,
    };
    convert(level) <= convert(max_level)
}

/// Picks the log records that are sent, and gives out the ids of spans.
pub struct SendLogger {
    max_level: Level,
    next_id: u32,
}

impl SendLogger {
    /// The most talkative level that is sent.
    pub closed spec fn max_level_of(self) -> Level {
        self.max_level
    }

    /// The id of the next span.
    pub closed spec fn next_id_of(self) -> u32 {
        self.next_id
    }

    pub fn new(max_level: Level) -> (logger: SendLogger)
        ensures
            logger.max_level_of() == max_level,
            logger.next_id_of() == 1,
    {
        SendLogger { max_level, next_id: 1 }
    }

    /// Whether a record is sent.
    pub fn enabled(&self, level: Level) -> (enabled: bool)
        ensures
            enabled == (level.verbosity() <= self.max_level_of().verbosity()),
    {
        at_most(level, self.max_level)
    }

    /// Whether there is an id for a span left.
    pub fn has_id(&self) -> (has: bool)
        ensures
            has == (self.next_id_of() != 0),
    {
        self.next_id != 0
    }

    /// Gives out the id of a span. No span has the id zero.
    pub fn new_span(&mut self) -> (id: u64)
        requires
            old(self).next_id_of() != 0,
        ensures
            id == old(self).next_id_of(),
            final(self).next_id_of() == next_span_id(old(self).next_id_of()),
            final(self).max_level_of() == old(self).max_level_of(),
    {
        let id: u32 = self.next_id;
        self.next_id = id.wrapping_add(1);
        id as u64
    }
}

/// The logger of a device: it sends everything but traces.
pub fn init_mqtt_logger() -> (logger: SendLogger)
    ensures
        logger.max_level_of() == Level::Debug,
        logger.next_id_of() == 1,
{
    SendLogger::new(Level::Debug)
}

/// The id after an id. After the last one it is zero.
pub open spec fn next_span_id(id: u32) -> u32 {
    if id == u32::MAX {
        0
    } else {
        (id + 1) as u32
    }
}

/// The id that is next after `n` spans.
pub open spec fn span_id(n: nat) -> u32
    decreases n,
{
    if n == 0 {
        1
    } else {
        next_span_id(span_id((n - 1) as nat))
    }
}

/// Ids are counted up one by one. After the last one there is none left, which the id zero says.
pub proof fn span_ids_are_counted(id: u32)
    ensures
        id < u32::MAX ==> next_span_id(id) == id + 1,
        next_span_id(u32::MAX) == 0,
{
}

/// The more talkative of two logs lets everything through that the other one does, and each level is
/// more talkative than those that matter more.
pub proof fn levels_are_in_order(level: Level, less: Level, more: Level)
    requires
        less.verbosity() <= more.verbosity(),
        level.verbosity() <= less.verbosity(),
    ensures
        level.verbosity() <= more.verbosity(),
        Level::Error.verbosity() < Level::Warn.verbosity() < Level::Info.verbosity()
            < Level::Debug.verbosity() < Level::Trace.verbosity(),
{
}

/// The first spans of a logger, as many as there are ids, have different ids, and none of them is
/// zero.
pub proof fn span_ids_are_fresh(m: nat, n: nat)
    requires
        m < n < u32::MAX,
    ensures
        span_id(m) == m + 1,
        span_id(n) == n + 1,
        span_id(m) != span_id(n),
        span_id(m) != 0,
        span_id(n) != 0,
    decreases n,
{
    if n > 1 {
        span_ids_are_fresh(if m < n - 1 {
            m
        } else {
            (n - 2) as nat
        }, (n - 1) as nat);
    } else {
        assert(span_id(0) == 1);
    }
}

} // verus!
