use nwrfc::pool::{may_hand_out, next_health, PoolEvent, PoolHealth};

#[test]
fn recycled_connection_needs_a_ping() {
    let h = next_health(PoolHealth::Healthy, PoolEvent::Recycle { lock_poisoned: false });
    assert_eq!(h, PoolHealth::Suspect);
    assert!(!may_hand_out(h));
    let h = next_health(h, PoolEvent::Ping { ok: true });
    assert_eq!(h, PoolHealth::Healthy);
    assert!(may_hand_out(h));
}

#[test]
fn poisoned_lock_evicts() {
    let h = next_health(PoolHealth::Healthy, PoolEvent::Recycle { lock_poisoned: true });
    assert_eq!(h, PoolHealth::Evicted);
    assert_eq!(next_health(h, PoolEvent::Ping { ok: true }), PoolHealth::Evicted);
    assert!(!may_hand_out(h));
}

#[test]
fn failed_ping_evicts_for_good() {
    let h = next_health(PoolHealth::Suspect, PoolEvent::Ping { ok: false });
    assert_eq!(h, PoolHealth::Evicted);
    let h = next_health(h, PoolEvent::Recycle { lock_poisoned: false });
    assert_eq!(h, PoolHealth::Evicted);
}
