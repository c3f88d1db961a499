use omnigate::subscription::{
    make_update, update_type_text, Phase, ProducerAction, ProducerEvent, Subscription,
};

fn emitted(a: ProducerAction) -> omnigate::subscription::UserUpdate {
    match a {
        ProducerAction::Emit(u) => u,
        other => panic!("expected an update, got {:?}", other),
    }
}

#[test]
fn zero_or_negative_interval_means_two_seconds() {
    assert_eq!(Subscription::new(1, 0), Subscription::new(1, 2));
    assert_eq!(Subscription::new(1, -9).interval_secs, 2);
    assert_eq!(Subscription::new(1, 5).interval_secs, 5);
    let mut s = Subscription::new(1, 0);
    assert!(matches!(s.step(ProducerEvent::Started), ProducerAction::Wait(2)));
}

#[test]
fn five_ticks_cycle_types_and_ages() {
    let mut s = Subscription::new(1, 2);
    assert!(matches!(s.step(ProducerEvent::Started), ProducerAction::Wait(2)));
    let mut kinds = Vec::new();
    let mut ages = Vec::new();
    let mut seqs = Vec::new();
    for t in 0..5i64 {
        let u = emitted(s.step(ProducerEvent::TimerFired(1000 + t)));
        assert_eq!(u.timestamp, 1000 + t);
        assert_eq!(u.user.id, 1);
        assert_eq!(u.user.name, "User 1");
        assert_eq!(u.user.email, "user1@example.com");
        kinds.push(u.update_type);
        ages.push(u.user.age);
        seqs.push(u.sequence);
        assert!(matches!(s.step(ProducerEvent::Delivered), ProducerAction::Wait(2)));
    }
    assert_eq!(
        kinds,
        vec!["activity_update", "status_update", "profile_update", "activity_update", "status_update"]
    );
    assert_eq!(ages, vec![31, 32, 33, 34, 35]);
    assert_eq!(seqs, vec![1, 2, 3, 4, 5]);
    assert_eq!(s.phase, Phase::Emitting);
}

#[test]
fn age_wraps_every_ten_updates() {
    assert_eq!(make_update(3, 10, 0).user.age, 30);
    assert_eq!(make_update(3, 19, 0).user.age, 39);
    assert_eq!(update_type_text(0), "profile_update");
    assert_eq!(update_type_text(u64::MAX), "profile_update");
    let u = make_update(-2, 7, -1);
    assert_eq!(u.user.name, "User -2");
    assert_eq!(u.user.email, "user-2@example.com");
}

#[test]
fn cancel_stops_further_emissions() {
    let mut s = Subscription::new(9, 1);
    emitted(s.step(ProducerEvent::TimerFired(1)));
    s.step(ProducerEvent::Delivered);
    emitted(s.step(ProducerEvent::TimerFired(2)));
    assert!(matches!(s.step(ProducerEvent::Cancelled), ProducerAction::Stop));
    assert_eq!(s.phase, Phase::Closed);
    for ev in [ProducerEvent::TimerFired(3), ProducerEvent::Delivered, ProducerEvent::Started] {
        assert!(matches!(s.step(ev), ProducerAction::Stop));
    }
    assert_eq!(s.sequence, 2);
}

#[test]
fn failed_send_closes() {
    let mut s = Subscription::new(9, 1);
    emitted(s.step(ProducerEvent::TimerFired(1)));
    assert!(matches!(s.step(ProducerEvent::DeliveryFailed), ProducerAction::Stop));
    assert!(matches!(s.step(ProducerEvent::TimerFired(2)), ProducerAction::Stop));
    assert_eq!((s.phase, s.sequence), (Phase::Closed, 1));
}

#[test]
fn exhausted_numbers_close_instead_of_repeating() {
    let mut s = Subscription { user_id: 1, interval_secs: 2, sequence: u64::MAX, phase: Phase::Emitting };
    assert!(matches!(s.step(ProducerEvent::TimerFired(5)), ProducerAction::Stop));
    assert_eq!((s.phase, s.sequence), (Phase::Closed, u64::MAX));
}
