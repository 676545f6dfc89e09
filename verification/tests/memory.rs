use loyalty_core::adapters::memory::ErasedPoisonError;
use loyalty_core::adapters::memory::MemoryDatabase;
use loyalty_core::domain::Loyalty;
use loyalty_core::domain::LoyaltyEvent;
use loyalty_core::ports::database::Error;

fn fresh_id() -> u128 {
    uuid::Uuid::new_v4().as_u128()
}

#[test]
fn test_register_retrieve() {
    let mut database = MemoryDatabase::default();
    let loyalty = Loyalty::new(fresh_id());
    // Create the loyalty in the database
    let res = database.register_loyalty_event(
        loyalty.member_id,
        LoyaltyEvent { event_id: fresh_id(), delta_points: 5, reason: "".to_string() },
    );
    assert!(res.is_ok());
    let stored_loyalty = res.unwrap();
    assert!(stored_loyalty.member_id == loyalty.member_id && stored_loyalty.points == 5);
    // Retrieving the loyalty should return the updated total
    let res = database.get_loyalty_points(loyalty.member_id);
    assert!(res.is_ok());
    let stored_loyalty = res.unwrap();
    assert!(stored_loyalty.member_id == loyalty.member_id && stored_loyalty.points == 5);
}

#[test]
fn test_negative_points_empty() {
    let mut database = MemoryDatabase::default();
    let res = database.register_loyalty_event(
        fresh_id(),
        LoyaltyEvent { event_id: fresh_id(), delta_points: -5, reason: "".to_string() },
    );
    assert!(matches!(res, Err(Error::NegativePointsTotal { .. })));
}

#[test]
fn test_negative_points_exists() {
    let mut database = MemoryDatabase::default();
    let loyalty = Loyalty::new(fresh_id());
    // Create the loyalty in the database
    let res = database.register_loyalty_event(
        loyalty.member_id,
        LoyaltyEvent { event_id: fresh_id(), delta_points: 5, reason: "".to_string() },
    );
    assert!(res.is_ok());
    // Removing the current number of points is OK
    let res = database.register_loyalty_event(
        loyalty.member_id,
        LoyaltyEvent { event_id: fresh_id(), delta_points: -5, reason: "".to_string() },
    );
    assert!(res.is_ok());
    // This would cause the number of points to go to -1
    let res = database.register_loyalty_event(
        loyalty.member_id,
        LoyaltyEvent { event_id: fresh_id(), delta_points: -1, reason: "".to_string() },
    );
    assert!(matches!(res, Err(Error::NegativePointsTotal { .. })));
}

#[test]
fn negative_points_reports_current_and_delta() {
    let mut database = MemoryDatabase::default();
    let member_id = fresh_id();
    let res = database.register_loyalty_event(
        member_id,
        LoyaltyEvent { event_id: fresh_id(), delta_points: -5, reason: "".to_string() },
    );
    match res {
        Err(Error::NegativePointsTotal { current_points, delta_points }) => {
            assert_eq!(current_points, 0);
            assert_eq!(delta_points, -5);
        }
        _ => panic!("expected NegativePointsTotal"),
    }
    // The store is unchanged: the member still has no events
    let loyalty = database.get_loyalty_points(member_id).unwrap();
    assert_eq!(loyalty.points, 0);
    assert_eq!(loyalty.events.len(), 0);
}

#[test]
fn drain_then_overdraft() {
    let mut database = MemoryDatabase::default();
    let member_id = fresh_id();
    let res = database.register_loyalty_event(
        member_id,
        LoyaltyEvent { event_id: fresh_id(), delta_points: 5, reason: "".to_string() },
    );
    assert_eq!(res.unwrap().points, 5);
    let res = database.register_loyalty_event(
        member_id,
        LoyaltyEvent { event_id: fresh_id(), delta_points: -5, reason: "".to_string() },
    );
    assert_eq!(res.unwrap().points, 0);
    let res = database.register_loyalty_event(
        member_id,
        LoyaltyEvent { event_id: fresh_id(), delta_points: -1, reason: "".to_string() },
    );
    match res {
        Err(Error::NegativePointsTotal { current_points, delta_points }) => {
            assert_eq!(current_points, 0);
            assert_eq!(delta_points, -1);
        }
        _ => panic!("expected NegativePointsTotal"),
    }
    // The store holds exactly the two accepted events
    let loyalty = database.get_loyalty_points(member_id).unwrap();
    assert_eq!(loyalty.points, 0);
    assert_eq!(loyalty.events.len(), 2);
    assert_eq!(loyalty.events[0].delta_points, 5);
    assert_eq!(loyalty.events[1].delta_points, -5);
}

#[test]
fn idempotent_reads() {
    let mut database = MemoryDatabase::default();
    let member_id = fresh_id();
    database
        .register_loyalty_event(
            member_id,
            LoyaltyEvent { event_id: fresh_id(), delta_points: 17, reason: "a".to_string() },
        )
        .unwrap();
    let first = database.get_loyalty_points(member_id).unwrap();
    let second = database.get_loyalty_points(member_id).unwrap();
    assert_eq!(first.member_id, second.member_id);
    assert_eq!(first.points, second.points);
    assert_eq!(first.events.len(), second.events.len());
    for (a, b) in first.events.iter().zip(second.events.iter()) {
        assert_eq!(a.event_id, b.event_id);
        assert_eq!(a.delta_points, b.delta_points);
        assert_eq!(a.reason, b.reason);
    }
}

#[test]
fn erased_poison_error_keeps_description() {
    let err = ErasedPoisonError::new("poisoned lock: another task failed inside".to_string());
    assert_eq!(err.message(), "poisoned lock: another task failed inside");
}
