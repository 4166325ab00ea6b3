//! Fleets: ships grouped by class, with merge and partial transfer.

use crate::error::GameError;
use crate::ship::{Ship, ShipClass};
use vstd::prelude::*;

verus! {

/// Where a fleet is.
#[derive(Debug, Clone, Copy, PartialEq, Eq, Structural)]
pub enum FleetLocation {
    /// In transit between two systems.
    Moving,
    /// Stationed at a system.
    Somewhere,
}

/// The ships of a fleet, class by class; each class is a stack, oldest first.
pub type Squadrons = Map<ShipClass, Seq<Ship>>;

/// The squadrons of a fleet without ships.
pub open spec fn no_ships() -> Squadrons {
    Map::total(|class: ShipClass| Seq::<Ship>::empty())
}

/// The number of ships in all classes together.
pub open spec fn ship_total(ships: Squadrons) -> nat {
    ships[ShipClass::Colony].len() + ships[ShipClass::Scout].len() + ships[ShipClass::Fighter].len()
}

/// Every ship stands in the stack of its own class.
pub open spec fn grouped(ships: Squadrons) -> bool {
    forall|class: ShipClass, i: int|
        0 <= i < ships[class].len() ==> (#[trigger] ships[class][i])@ == class
}

/// A fleet holds at most `u32::MAX` ships, so that every count fits its type.
pub struct Fleet {
    colonies: Vec<Ship>,
    scouts: Vec<Ship>,
    fighters: Vec<Ship>,
    location: FleetLocation,
}

impl View for Fleet {
    type V = Squadrons;

    open spec fn view(&self) -> Squadrons {
        Map::total(|class: ShipClass| self.stack(class))
    }
}

impl Fleet {
    /// The ships of one class, oldest first.
    pub closed spec fn stack(&self, class: ShipClass) -> Seq<Ship> {
        match class {
            ShipClass::Colony => self.colonies@,
            ShipClass::Scout => self.scouts@,
            ShipClass::Fighter => self.fighters@,
        }
    }

    /// Where the fleet is.
    pub closed spec fn place(&self) -> FleetLocation {
        self.location
    }

    #[verifier::type_invariant]
    spec fn inv(&self) -> bool {
        &&& grouped(self@)
        &&& ship_total(self@) <= u32::MAX
    }

    /// A stationary fleet without ships.
    pub fn new() -> (fleet: Fleet)
        ensures
            fleet@ == no_ships(),
            fleet.place() == FleetLocation::Somewhere,
    {
        let fleet = Fleet {
            colonies: Vec::new(),
            scouts: Vec::new(),
            fighters: Vec::new(),
            location: FleetLocation::Somewhere,
        };
        fleet
    }

    /// Where the fleet is.
    pub fn location(&self) -> (l: FleetLocation)
        ensures
            l == self.place(),
    {
        self.location
    }

    /// Takes the stack of one class out of the fleet, leaving that class empty.
    fn take_stack(&mut self, class: ShipClass) -> (ships: Vec<Ship>)
        ensures
            ships@ == old(self)@[class],
            final(self)@ == old(self)@.insert(class, Seq::empty()),
            final(self).place() == old(self).place(),
    {
        proof {
            use_type_invariant(&*self);
        }
        let mut ships = Vec::new();
        match class {
            ShipClass::Colony => std::mem::swap(&mut ships, &mut self.colonies),
            ShipClass::Scout => std::mem::swap(&mut ships, &mut self.scouts),
            ShipClass::Fighter => std::mem::swap(&mut ships, &mut self.fighters),
        }
        ships
    }

    /// Puts a stack in the place of the stack of one class.
    fn put_stack(&mut self, class: ShipClass, ships: Vec<Ship>)
        requires
            forall|i: int| 0 <= i < ships@.len() ==> (#[trigger] ships@[i])@ == class,
            ship_total(old(self)@.insert(class, ships@)) <= u32::MAX,
        ensures
            final(self)@ == old(self)@.insert(class, ships@),
            final(self).place() == old(self).place(),
    {
        proof {
            use_type_invariant(&*self);
        }
        match class {
            ShipClass::Colony => {
                self.colonies = ships;
            },
            ShipClass::Scout => {
                self.scouts = ships;
            },
            ShipClass::Fighter => {
                self.fighters = ships;
            },
        }
    }

    /// Adds a ship on top of the stack of its class.
    pub fn add(&mut self, ship: Ship)
        requires
            ship_total(old(self)@) < u32::MAX,
        ensures
            final(self)@ == old(self)@.insert(ship@, old(self)@[ship@].push(ship)),
            final(self).place() == old(self).place(),
            grouped(final(self)@),
    {
        proof {
            use_type_invariant(&*self);
        }
        let class = ship.class();
        let mut ships = self.take_stack(class);
        ships.push(ship);
        self.put_stack(class, ships);
        proof {
            use_type_invariant(&*self);
        }
    }

    /// Moves every ship of `fleet` into this fleet, class by class, in the
    /// order in which `fleet` held them.
    pub fn merge(&mut self, fleet: Box<Fleet>)
        requires
            ship_total(old(self)@) + ship_total(fleet@) <= u32::MAX,
        ensures
            final(self)@ == Map::total(|class: ShipClass| old(self)@[class] + fleet@[class]),
            ship_total(final(self)@) == ship_total(old(self)@) + ship_total(fleet@),
            final(self).place() == old(self).place(),
            grouped(final(self)@),
    {
        let mut other = *fleet;
        self.absorb(&mut other, ShipClass::Colony);
        self.absorb(&mut other, ShipClass::Scout);
        self.absorb(&mut other, ShipClass::Fighter);
        proof {
            use_type_invariant(&*self);
        }
    }

    /// Moves the ships of one class from `other` to the top of this fleet's
    /// stack of that class, keeping their order.
    fn absorb(&mut self, other: &mut Fleet, class: ShipClass)
        requires
            ship_total(old(self)@) + old(other)@[class].len() <= u32::MAX,
        ensures
            final(self)@ == old(self)@.insert(class, old(self)@[class] + old(other)@[class]),
            final(self).place() == old(self).place(),
            final(other)@ == old(other)@.insert(class, Seq::empty()),
            final(other).place() == old(other).place(),
    {
        proof {
            use_type_invariant(&*self);
            use_type_invariant(&*other);
        }
        let mut ships = self.take_stack(class);
        let mut more = other.take_stack(class);
        ships.append(&mut more);
        self.put_stack(class, ships);
    }

    /// Moves `number` ships of one class to `fleet`, or none at all.
    ///
    /// The ships leave from the top of the stack, the one added last going
    /// first, and are added to `fleet` in the order in which they leave. With
    /// fewer than `number` ships of that class the transfer is refused and
    /// both fleets stay as they were.
    pub fn move_to(&mut self, fleet: &mut Fleet, number: u32, class: ShipClass) -> (done: Result<
        (),
        GameError,
    >)
        requires
            0 < number <= old(self)@[class].len() ==> ship_total(old(fleet)@) + number
                <= u32::MAX,
        ensures
            done is Ok <==> number <= old(self)@[class].len(),
            done is Err ==> done == Err::<(), GameError>(GameError::InsufficientShips)
                && final(self)@ == old(self)@ && final(fleet)@ == old(fleet)@,
            done is Ok ==> final(self)@ == old(self)@.insert(
                class,
                old(self)@[class].take(old(self)@[class].len() - number),
            ) && final(fleet)@ == old(fleet)@.insert(
                class,
                old(fleet)@[class] + old(self)@[class].skip(
                    old(self)@[class].len() - number,
                ).reverse(),
            ),
            done is Ok ==> final(self)@[class].len() == old(self)@[class].len() - number,
            done is Ok ==> final(fleet)@[class].len() == old(fleet)@[class].len() + number,
            number == 0 ==> done is Ok && final(self)@ == old(self)@ && final(fleet)@ == old(
                fleet,
            )@,
            final(self).place() == old(self).place(),
            final(fleet).place() == old(fleet).place(),
            grouped(final(self)@),
            grouped(final(fleet)@),
    {
        proof {
            use_type_invariant(&*self);
            use_type_invariant(&*fleet);
        }
        if number > self.count(class) {
            return Err(GameError::InsufficientShips);
        }
        let mut ships = self.take_stack(class);
        let ghost start = ships@;
        let mut moved: u32 = 0;
        while moved < number
            invariant
                moved <= number <= start.len(),
                start == old(self)@[class],
                forall|i: int| 0 <= i < start.len() ==> (#[trigger] start[i])@ == class,
                ships@ == start.take(start.len() - moved),
                fleet@ == old(fleet)@.insert(
                    class,
                    old(fleet)@[class] + start.skip(start.len() - moved).reverse(),
                ),
                fleet.place() == old(fleet).place(),
                ship_total(old(fleet)@) + number <= u32::MAX,
            decreases number - moved,
        {
            let ship = ships.pop().unwrap();
            fleet.add(ship);
            moved += 1;
            proof {
                let left = start.len() - moved;
                assert(start.skip(left).reverse() =~= start.skip(left + 1).reverse().push(
                    start[left],
                ));
            }
        }
        self.put_stack(class, ships);
        proof {
            use_type_invariant(&*self);
            use_type_invariant(&*fleet);
            if number == 0 {
                assert(start.take(start.len() as int) =~= start);
            }
        }
        Ok(())
    }

    /// The number of ships of one class; 0 for a class that was never added.
    pub fn count(&self, class: ShipClass) -> (n: u32)
        ensures
            n == self@[class].len(),
            grouped(self@),
    {
        proof {
            use_type_invariant(self);
        }
        match class {
            ShipClass::Colony => self.colonies.len() as u32,
            ShipClass::Scout => self.scouts.len() as u32,
            ShipClass::Fighter => self.fighters.len() as u32,
        }
    }

    /// The number of ships in all classes together.
    pub fn size(&self) -> (n: u32)
        ensures
            n == ship_total(self@),
            grouped(self@),
    {
        proof {
            use_type_invariant(self);
        }
        let mut count = 0u32;
        count += self.colonies.len() as u32;
        count += self.scouts.len() as u32;
        count += self.fighters.len() as u32;
        count
    }
}

} // verus!
