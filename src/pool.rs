//! Health of a pooled connection, from the pool's recycle checks.
use vstd::prelude::*;

verus! {

/// Where a pooled connection stands.
#[derive(Clone, Copy, Debug, PartialEq, Eq, Structural)]
pub enum PoolHealth {
    /// Proven alive by its last ping: it may be handed out.
    Healthy,
    /// Back in the pool and not yet pinged: it may not be handed out.
    Suspect,
    /// Unusable for good: it is never handed out again.
    Evicted,
}

/// What the pool learns about a connection.
#[derive(Clone, Copy, Debug, PartialEq, Eq, Structural)]
pub enum PoolEvent {
    /// The connection came back for reuse; the lock guarding it was found
    /// poisoned, or not.
    Recycle { lock_poisoned: bool },
    /// A liveness ping finished, successfully or not. A ping that could not
    /// be run at all counts as a failed one.
    Ping { ok: bool },
}

pub open spec fn health_step(h: PoolHealth, e: PoolEvent) -> PoolHealth {
    match h {
        PoolHealth::Evicted => PoolHealth::Evicted,
        _ => match e {
            PoolEvent::Recycle { lock_poisoned } => if lock_poisoned {
                PoolHealth::Evicted
            } else {
                PoolHealth::Suspect
            },
            PoolEvent::Ping { ok } => if ok {
                PoolHealth::Healthy
            } else {
                PoolHealth::Evicted
            },
        },
    }
}

/// The health after a run of events.
pub open spec fn health_after(h: PoolHealth, events: Seq<PoolEvent>) -> PoolHealth
    decreases events.len(),
{
    if events.len() == 0 {
        h
    } else {
        health_after(health_step(h, events[0]), events.drop_first())
    }
}

/// The health after the event `e`.
pub fn next_health(h: PoolHealth, e: PoolEvent) -> (r: PoolHealth)
    ensures
        r == health_step(h, e),
{
    match h {
        PoolHealth::Evicted => PoolHealth::Evicted,
        _ => match e {
            PoolEvent::Recycle { lock_poisoned } => if lock_poisoned {
                PoolHealth::Evicted
            } else {
                PoolHealth::Suspect
            },
            PoolEvent::Ping { ok } => if ok {
                PoolHealth::Healthy
            } else {
                PoolHealth::Evicted
            },
        },
    }
}

/// Whether a connection in this state may be handed to a caller.
pub fn may_hand_out(h: PoolHealth) -> (r: bool)
    ensures
        r <==> h == PoolHealth::Healthy,
{
    h == PoolHealth::Healthy
}

/// An evicted connection stays evicted, whatever comes after.
pub proof fn lemma_evicted_is_final(events: Seq<PoolEvent>)
    ensures
        health_after(PoolHealth::Evicted, events) == PoolHealth::Evicted,
    decreases events.len(),
{
    if events.len() > 0 {
        lemma_evicted_is_final(events.drop_first());
    }
}

/// A recycled connection is handed out again only after a successful ping:
/// recycling never leaves it healthy, and a ping failure evicts it.
pub proof fn lemma_recycle_needs_ping(h: PoolHealth, lock_poisoned: bool)
    ensures
        health_step(h, PoolEvent::Recycle { lock_poisoned }) != PoolHealth::Healthy,
        lock_poisoned ==> health_step(h, PoolEvent::Recycle { lock_poisoned }) == PoolHealth::Evicted,
        health_step(health_step(h, PoolEvent::Recycle { lock_poisoned }), PoolEvent::Ping { ok: false })
            == PoolHealth::Evicted,
{
}

} // verus!
