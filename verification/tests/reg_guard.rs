use drone_cortexm::reg::atomic::{ExclAction, ExclEvent};
use drone_cortexm::reg::field::{Reg, RegFieldBit};
use drone_cortexm::reg::guard::{RegGuard, RegGuardCnt};

#[test]
fn guard_switches_resource_on_and_off() {
    let pwren = RegFieldBit::new(Reg::new(0x4002_101C), 28);
    let mut cnt = RegGuardCnt::new();
    assert_eq!(cnt.get(), 0);

    let (guard1, mut up, a) = RegGuard::new(pwren, &mut cnt);
    assert_eq!(cnt.get(), 1);
    assert_eq!(a, ExclAction::LoadExclusive);
    assert_eq!(up.get_address(), 0x4002_101C);
    assert_eq!(up.step(ExclEvent::Loaded(0)), ExclAction::StoreExclusive(1 << 28));

    let guard2 = guard1.clone(&mut cnt);
    assert_eq!(cnt.get(), 2);

    // Not the last guard: the register value is kept.
    let (mut keep, a) = guard1.release(&mut cnt);
    assert_eq!(a, ExclAction::LoadExclusive);
    assert_eq!(cnt.get(), 1);
    assert_eq!(keep.get_address(), 0x4002_101C);
    assert_eq!(keep.step(ExclEvent::Loaded(1 << 28), &cnt), ExclAction::StoreExclusive(1 << 28));
    assert_eq!(keep.step(ExclEvent::Stored(true), &cnt), ExclAction::Done);

    // The last guard switches the resource off.
    let (mut down, _) = guard2.release(&mut cnt);
    assert_eq!(cnt.get(), 0);
    assert_eq!(down.step(ExclEvent::Loaded(1 << 28 | 1), &cnt), ExclAction::StoreExclusive(1));
    assert_eq!(down.step(ExclEvent::Stored(true), &cnt), ExclAction::Done);
}

#[test]
fn only_the_last_of_three_releases_switches_off() {
    let bit = RegFieldBit::new(Reg::new(0x4002_1018), 0);
    let mut cnt = RegGuardCnt::new();
    let (g1, _, _) = RegGuard::new(bit, &mut cnt);
    let g2 = g1.clone(&mut cnt);
    let g3 = g2.clone(&mut cnt);
    assert_eq!(cnt.get(), 3);
    let mut results = Vec::new();
    for g in [g2, g1, g3] {
        let (mut u, _) = g.release(&mut cnt);
        results.push(u.step(ExclEvent::Loaded(0xF), &cnt));
    }
    assert_eq!(
        results,
        vec![
            ExclAction::StoreExclusive(0xF),
            ExclAction::StoreExclusive(0xF),
            ExclAction::StoreExclusive(0xE),
        ]
    );
    assert_eq!(cnt.get(), 0);
}

#[test]
fn guard_created_during_a_release_keeps_the_resource_on() {
    let bit = RegFieldBit::new(Reg::new(0x4002_1018), 0);
    let mut cnt = RegGuardCnt::new();
    let (g1, _, _) = RegGuard::new(bit, &mut cnt);
    let (mut rel, _) = g1.release(&mut cnt);
    assert_eq!(cnt.get(), 0);
    // The first attempt sees no guard and would switch off, but loses the
    // exclusive access to an interrupt that creates a new guard.
    assert_eq!(rel.step(ExclEvent::Loaded(1), &cnt), ExclAction::StoreExclusive(0));
    let (_g2, mut up, _) = RegGuard::new(bit, &mut cnt);
    assert_eq!(up.step(ExclEvent::Loaded(1)), ExclAction::StoreExclusive(1));
    assert_eq!(rel.step(ExclEvent::Stored(false), &cnt), ExclAction::LoadExclusive);
    // The retry reads the counter again and keeps the resource on.
    assert_eq!(rel.step(ExclEvent::Loaded(1), &cnt), ExclAction::StoreExclusive(1));
    assert_eq!(rel.step(ExclEvent::Stored(true), &cnt), ExclAction::Done);
}

#[test]
fn guard_creation_retries_after_a_lost_store() {
    let bit = RegFieldBit::new(Reg::new(0x4002_1018), 3);
    let mut cnt = RegGuardCnt::new();
    let (_g, mut up, _) = RegGuard::new(bit, &mut cnt);
    assert_eq!(up.step(ExclEvent::Stored(true)), ExclAction::LoadExclusive);
    assert_eq!(up.step(ExclEvent::Loaded(0x1)), ExclAction::StoreExclusive(0x9));
    assert_eq!(up.step(ExclEvent::Stored(false)), ExclAction::LoadExclusive);
    assert_eq!(up.step(ExclEvent::Loaded(0x2)), ExclAction::StoreExclusive(0xA));
    assert_eq!(up.step(ExclEvent::Stored(true)), ExclAction::Done);
    assert_eq!(up.step(ExclEvent::Loaded(0x0)), ExclAction::Done);
}
