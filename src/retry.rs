//! The bounded negotiation of display-configuration buffer sizes: a query
//! that races a reconfiguration reports a buffer that is too small and is
//! asked again, a bounded number of times.
use vstd::prelude::*;

verus! {

/// How many times the display configuration is queried before giving up.
pub const MAX_CONFIG_ATTEMPTS: u32 = 8;

/// The status of one display-configuration query.
#[derive(Clone, Copy, Debug, PartialEq, Eq, Structural)]
pub enum ConfigStatus {
    Success,
    /// The configuration changed between sizing the buffers and filling them.
    InsufficientBuffer,
    /// Any other failure of the call.
    Failed,
}

/// What to do after a query.
#[derive(Clone, Copy, Debug, PartialEq, Eq, Structural)]
pub enum Negotiation {
    /// The buffers hold a consistent snapshot.
    Done,
    /// Size the buffers and query again.
    Retry,
    /// The call failed; report it.
    Failed,
    /// The configuration kept changing for every allowed attempt.
    GaveUp,
}

pub open spec fn spec_next_step(attempts: nat, status: ConfigStatus) -> Negotiation {
    match status {
        ConfigStatus::Success => Negotiation::Done,
        ConfigStatus::Failed => Negotiation::Failed,
        ConfigStatus::InsufficientBuffer => if attempts < MAX_CONFIG_ATTEMPTS {
            Negotiation::Retry
        } else {
            Negotiation::GaveUp
        },
    }
}

/// The decision after the query numbered `attempts` (counting from 1)
/// returned `status`.
pub fn next_step(attempts: u32, status: ConfigStatus) -> (r: Negotiation)
    ensures
        r == spec_next_step(attempts as nat, status),
{
    match status {
        ConfigStatus::Success => Negotiation::Done,
        ConfigStatus::Failed => Negotiation::Failed,
        ConfigStatus::InsufficientBuffer => if attempts < MAX_CONFIG_ATTEMPTS {
            Negotiation::Retry
        } else {
            Negotiation::GaveUp
        },
    }
}

/// The final decision, and the number of queries made, when the queries
/// return `statuses` in turn, starting after `done` queries. Running out of
/// statuses leaves the negotiation at `Retry`.
pub open spec fn settle(statuses: Seq<ConfigStatus>, done: nat) -> (Negotiation, nat)
    decreases statuses.len() - done,
{
    if done >= statuses.len() {
        (Negotiation::Retry, done)
    } else {
        let d = spec_next_step(done + 1, statuses[done as int]);
        if d == Negotiation::Retry {
            settle(statuses, done + 1)
        } else {
            (d, done + 1)
        }
    }
}

/// Whatever the queries return, a negotiation that has made fewer than
/// `MAX_CONFIG_ATTEMPTS` queries so far (none, at its start) never makes more
/// than `MAX_CONFIG_ATTEMPTS` in all.
pub proof fn lemma_negotiation_is_bounded(statuses: Seq<ConfigStatus>, done: nat)
    requires
        done < MAX_CONFIG_ATTEMPTS,
    ensures
        settle(statuses, done).1 <= MAX_CONFIG_ATTEMPTS,
    decreases statuses.len() - done,
{
    if done < statuses.len() {
        let d = spec_next_step(done + 1, statuses[done as int]);
        if d == Negotiation::Retry {
            lemma_negotiation_is_bounded(statuses, done + 1);
        }
    }
}

/// Where a too-small buffer is reported for fewer than `MAX_CONFIG_ATTEMPTS`
/// queries in a row and the next query succeeds, the negotiation ends with a
/// snapshot after exactly that many queries plus one.
pub proof fn lemma_negotiation_recovers(statuses: Seq<ConfigStatus>, races: nat)
    requires
        races < MAX_CONFIG_ATTEMPTS,
        races < statuses.len(),
        forall|i: int| 0 <= i < races ==> statuses[i] == ConfigStatus::InsufficientBuffer,
        statuses[races as int] == ConfigStatus::Success,
    ensures
        settle(statuses, 0) == (Negotiation::Done, races + 1),
{
    lemma_settle_from(statuses, races, 0);
}

proof fn lemma_settle_from(statuses: Seq<ConfigStatus>, races: nat, done: nat)
    requires
        done <= races,
        races < MAX_CONFIG_ATTEMPTS,
        races < statuses.len(),
        forall|i: int| 0 <= i < races ==> statuses[i] == ConfigStatus::InsufficientBuffer,
        statuses[races as int] == ConfigStatus::Success,
    ensures
        settle(statuses, done) == (Negotiation::Done, races + 1),
    decreases races - done,
{
    if done < races {
        lemma_settle_from(statuses, races, done + 1);
    }
}

} // verus!
