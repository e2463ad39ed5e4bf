use spot_event::{Principal, SpotFactory, SpotFactoryError};

#[test]
fn admin_and_handover() {
    let mut f = SpotFactory::new(Principal::new(1));
    assert_eq!(f.admin(), Ok(Principal::new(1)));
    assert_eq!(f.set_admin(Principal::new(2), Principal::new(2)), Err(SpotFactoryError::Unauthorized));
    assert_eq!(f.admin(), Ok(Principal::new(1)));
    assert_eq!(f.set_admin(Principal::new(1), Principal::new(3)), Ok(()));
    assert_eq!(f.admin(), Ok(Principal::new(3)));
}

#[test]
fn create_and_look_up_events() {
    let mut f = SpotFactory::new(Principal::new(1));
    assert!(f.get_events().is_empty());
    let creator = Principal::new(5);
    let at = Principal::new(40);
    let r = f.create_event(creator, "Meetup".to_string(), 50, "ipfs://meta".to_string(), at, 1000);
    assert_eq!(r, Ok(at));
    let r = f.create_event(Principal::new(6), "Hack".to_string(), 3, String::new(), Principal::new(41), 2000);
    assert_eq!(r, Ok(Principal::new(41)));
    assert_eq!(f.get_events(), vec![0, 1]);
    let info = f.get_event_info(0).unwrap();
    assert_eq!(info.id, 0);
    assert_eq!(info.name, "Meetup");
    assert_eq!(info.creator, creator);
    assert_eq!(info.contract_address, at);
    assert_eq!(info.created_at, 1000);
    let info = f.get_event_info(1).unwrap();
    assert_eq!(info.name, "Hack");
    assert_eq!(info.contract_address, Principal::new(41));
    assert!(matches!(f.get_event_info(2), Err(SpotFactoryError::EventNotFound)));
}

#[test]
fn zero_capacity_event_is_rejected() {
    let mut f = SpotFactory::new(Principal::new(1));
    let r = f.create_event(Principal::new(5), "X".to_string(), 0, String::new(), Principal::new(9), 10);
    assert_eq!(r, Err(SpotFactoryError::InvalidParameters));
    assert!(f.get_events().is_empty());
    assert!(matches!(f.get_event_info(0), Err(SpotFactoryError::EventNotFound)));
}

#[test]
fn same_instant_gives_distinct_ids() {
    let mut f = SpotFactory::new(Principal::new(1));
    f.create_event(Principal::new(5), "First".to_string(), 1, String::new(), Principal::new(50), 7).unwrap();
    f.create_event(Principal::new(6), "Second".to_string(), 1, String::new(), Principal::new(51), 7).unwrap();
    assert_eq!(f.get_events(), vec![0, 1]);
    let first = f.get_event_info(0).unwrap();
    let second = f.get_event_info(1).unwrap();
    assert_eq!(first.name, "First");
    assert_eq!(first.creator, Principal::new(5));
    assert_eq!(first.created_at, 7);
    assert_eq!(second.name, "Second");
    assert_eq!(second.creator, Principal::new(6));
    assert_eq!(second.created_at, 7);
}

#[test]
fn factory_error_symbols() {
    assert_eq!(SpotFactoryError::Unauthorized.to_symbol(), "UNAUTHORIZED");
    assert_eq!(SpotFactoryError::InvalidPlan.to_symbol(), "INVALID_PLAN");
    assert_eq!(SpotFactoryError::InsufficientPayment.to_symbol(), "INSUFF_PAYMENT");
    assert_eq!(SpotFactoryError::EventCreationFailed.to_symbol(), "EVT_FAILED");
    assert_eq!(SpotFactoryError::InvalidParameters.to_symbol(), "INVALID_PARAMS");
    assert_eq!(SpotFactoryError::EventNotFound.to_symbol(), "EVT_NOT_FOUND");
}

#[test]
fn next_event_id_counts_creations() {
    let mut f = SpotFactory::new(Principal::new(1));
    assert_eq!(f.next_event_id(), 0);
    f.create_event(Principal::new(2), "A".to_string(), 1, String::new(), Principal::new(30), 5).unwrap();
    assert_eq!(f.next_event_id(), 1);
    let _ = f.create_event(Principal::new(2), "B".to_string(), 0, String::new(), Principal::new(31), 5);
    assert_eq!(f.next_event_id(), 1);
}
