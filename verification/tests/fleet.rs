use space_empire::{Fleet, FleetLocation, GameError, Ship, ShipClass};

fn fleet_of(colonies: u32, scouts: u32, fighters: u32) -> Fleet {
    let mut fleet = Fleet::new();
    for _ in 0..colonies {
        fleet.add(Ship::new(ShipClass::Colony));
    }
    for _ in 0..scouts {
        fleet.add(Ship::new(ShipClass::Scout));
    }
    for _ in 0..fighters {
        fleet.add(Ship::new(ShipClass::Fighter));
    }
    fleet
}

fn counts(fleet: &Fleet) -> (u32, u32, u32) {
    (
        fleet.count(ShipClass::Colony),
        fleet.count(ShipClass::Scout),
        fleet.count(ShipClass::Fighter),
    )
}

#[test]
fn test_fleet_movement() {
    let mut fleet1 = Fleet::new();
    let mut fleet2 = Fleet::new();
    fleet1.add(Ship::new(ShipClass::Fighter));
    fleet1.add(Ship::new(ShipClass::Fighter));
    fleet1.add(Ship::new(ShipClass::Scout));
    fleet2.add(Ship::new(ShipClass::Fighter));
    fleet2.add(Ship::new(ShipClass::Fighter));
    fleet2.add(Ship::new(ShipClass::Colony));

    fleet1.merge(Box::new(fleet2));
    let mut fleet3 = Fleet::new();
    assert!(fleet1.move_to(&mut fleet3, 3, ShipClass::Fighter).is_ok());
}

#[test]
fn new_fleet_is_empty_and_stationary() {
    let fleet = Fleet::new();
    assert_eq!(fleet.size(), 0);
    assert_eq!(counts(&fleet), (0, 0, 0));
    assert_eq!(fleet.location(), FleetLocation::Somewhere);
}

#[test]
fn add_counts_each_class_apart() {
    let mut fleet = Fleet::new();
    fleet.add(Ship::new(ShipClass::Scout));
    assert_eq!(counts(&fleet), (0, 1, 0));
    fleet.add(Ship::new(ShipClass::Fighter));
    fleet.add(Ship::new(ShipClass::Scout));
    assert_eq!(counts(&fleet), (0, 2, 1));
    fleet.add(Ship::new(ShipClass::Colony));
    assert_eq!(counts(&fleet), (1, 2, 1));
    assert_eq!(fleet.size(), 4);
    assert_eq!(fleet.location(), FleetLocation::Somewhere);
}

#[test]
fn merge_adds_every_ship() {
    let mut a = fleet_of(0, 1, 2);
    let b = fleet_of(1, 0, 2);
    a.merge(Box::new(b));
    assert_eq!(a.count(ShipClass::Fighter), 4);
    assert_eq!(a.count(ShipClass::Scout), 1);
    assert_eq!(a.count(ShipClass::Colony), 1);
    assert_eq!(a.size(), 6);
}

#[test]
fn merge_with_an_empty_fleet_changes_nothing() {
    let mut a = fleet_of(2, 3, 4);
    a.merge(Box::new(Fleet::new()));
    assert_eq!(counts(&a), (2, 3, 4));
    let mut empty = Fleet::new();
    empty.merge(Box::new(a));
    assert_eq!(counts(&empty), (2, 3, 4));
    assert_eq!(empty.size(), 9);
}

#[test]
fn move_to_moves_exactly_the_number() {
    let mut source = fleet_of(0, 0, 4);
    let mut destination = Fleet::new();
    assert_eq!(source.move_to(&mut destination, 3, ShipClass::Fighter), Ok(()));
    assert_eq!(source.count(ShipClass::Fighter), 1);
    assert_eq!(destination.count(ShipClass::Fighter), 3);
    assert_eq!(source.size(), 1);
    assert_eq!(destination.size(), 3);
}

#[test]
fn move_to_refuses_more_than_there_is() {
    let mut source = fleet_of(1, 2, 4);
    let mut destination = fleet_of(0, 1, 1);
    assert_eq!(
        source.move_to(&mut destination, 5, ShipClass::Fighter),
        Err(GameError::InsufficientShips)
    );
    assert_eq!(counts(&source), (1, 2, 4));
    assert_eq!(counts(&destination), (0, 1, 1));
}

#[test]
fn move_to_refuses_five_of_four() {
    let mut source = fleet_of(0, 0, 4);
    let mut destination = Fleet::new();
    assert_eq!(
        source.move_to(&mut destination, 5, ShipClass::Fighter),
        Err(GameError::InsufficientShips)
    );
    assert_eq!(source.count(ShipClass::Fighter), 4);
    assert_eq!(destination.count(ShipClass::Fighter), 0);
    assert_eq!(source.size(), 4);
    assert_eq!(destination.size(), 0);
}

#[test]
fn move_to_can_empty_a_class() {
    let mut source = fleet_of(1, 2, 4);
    let mut destination = fleet_of(0, 1, 1);
    assert_eq!(source.move_to(&mut destination, 4, ShipClass::Fighter), Ok(()));
    assert_eq!(counts(&source), (1, 2, 0));
    assert_eq!(counts(&destination), (0, 1, 5));
    assert_eq!(
        source.move_to(&mut destination, 1, ShipClass::Fighter),
        Err(GameError::InsufficientShips)
    );
    assert_eq!(counts(&source), (1, 2, 0));
    assert_eq!(counts(&destination), (0, 1, 5));
}

#[test]
fn move_to_leaves_other_classes_alone() {
    let mut source = fleet_of(3, 3, 3);
    let mut destination = fleet_of(1, 1, 1);
    assert_eq!(source.move_to(&mut destination, 2, ShipClass::Scout), Ok(()));
    assert_eq!(counts(&source), (3, 1, 3));
    assert_eq!(counts(&destination), (1, 3, 1));
}

#[test]
fn move_to_of_no_ships_always_succeeds() {
    let mut source = Fleet::new();
    let mut destination = Fleet::new();
    for class in [ShipClass::Colony, ShipClass::Scout, ShipClass::Fighter] {
        assert_eq!(source.move_to(&mut destination, 0, class), Ok(()));
    }
    assert_eq!(counts(&source), (0, 0, 0));
    assert_eq!(counts(&destination), (0, 0, 0));

    let mut fighters = fleet_of(0, 0, 2);
    assert_eq!(fighters.move_to(&mut destination, 0, ShipClass::Scout), Ok(()));
    assert_eq!(fighters.move_to(&mut destination, 0, ShipClass::Fighter), Ok(()));
    assert_eq!(counts(&fighters), (0, 0, 2));
    assert_eq!(counts(&destination), (0, 0, 0));
}

#[test]
fn move_to_from_a_class_never_added_fails() {
    let mut source = fleet_of(0, 0, 2);
    let mut destination = Fleet::new();
    assert_eq!(
        source.move_to(&mut destination, 1, ShipClass::Colony),
        Err(GameError::InsufficientShips)
    );
    assert_eq!(counts(&source), (0, 0, 2));
    assert_eq!(counts(&destination), (0, 0, 0));
}

#[test]
fn moved_ships_keep_their_class() {
    let mut source = fleet_of(0, 2, 0);
    let mut destination = Fleet::new();
    assert_eq!(source.move_to(&mut destination, 2, ShipClass::Scout), Ok(()));
    assert_eq!(counts(&destination), (0, 2, 0));
    let mut back = Fleet::new();
    assert_eq!(destination.move_to(&mut back, 1, ShipClass::Scout), Ok(()));
    assert_eq!(counts(&destination), (0, 1, 0));
    assert_eq!(counts(&back), (0, 1, 0));
}
