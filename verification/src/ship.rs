//! Ships and their fixed statistics.

use vstd::prelude::*;

verus! {

/// The kinds of ship a fleet can hold.
#[derive(Debug, Clone, Copy, PartialEq, Eq, Hash, Structural)]
pub enum ShipClass {
    Colony,
    Scout,
    Fighter,
}

impl ShipClass {
    /// Hit points of a ship of this class.
    pub open spec fn health(self) -> u32 {
        match self {
            ShipClass::Colony => 100,
            ShipClass::Scout => 50,
            ShipClass::Fighter => 150,
        }
    }

    /// Speed of a ship of this class.
    pub open spec fn speed(self) -> u32 {
        match self {
            ShipClass::Colony => 10,
            ShipClass::Scout => 30,
            ShipClass::Fighter => 10,
        }
    }

    /// Damage dealt by a ship of this class.
    pub open spec fn damage(self) -> u32 {
        match self {
            ShipClass::Colony => 10,
            ShipClass::Scout => 5,
            ShipClass::Fighter => 100,
        }
    }
}

/// A ship: its class, and the statistics that the class fixes.
#[derive(Debug, Clone, Copy)]
pub struct Ship {
    class: ShipClass,
    health: u32,
    speed: u32,
    damage: u32,
}

impl View for Ship {
    type V = ShipClass;

    /// A ship is determined by its class.
    closed spec fn view(&self) -> ShipClass {
        self.class
    }
}

impl Ship {
    #[verifier::type_invariant]
    spec fn stats_by_class(&self) -> bool {
        &&& self.health == self.class.health()
        &&& self.speed == self.class.speed()
        &&& self.damage == self.class.damage()
    }

    /// A new ship of the given class.
    pub fn new(class: ShipClass) -> (s: Ship)
        ensures
            s@ == class,
    {
        match class {
            ShipClass::Colony => Ship { class, health: 100, speed: 10, damage: 10 },
            ShipClass::Scout => Ship { class, health: 50, speed: 30, damage: 5 },
            ShipClass::Fighter => Ship { class, health: 150, speed: 10, damage: 100 },
        }
    }

    /// The class this ship was made with.
    pub fn class(&self) -> (c: ShipClass)
        ensures
            c == self@,
    {
        self.class
    }

    /// Hit points.
    pub fn health(&self) -> (h: u32)
        ensures
            h == self@.health(),
    {
        proof {
            use_type_invariant(self);
        }
        self.health
    }

    /// Speed.
    pub fn speed(&self) -> (v: u32)
        ensures
            v == self@.speed(),
    {
        proof {
            use_type_invariant(self);
        }
        self.speed
    }

    /// Damage dealt.
    pub fn damage(&self) -> (d: u32)
        ensures
            d == self@.damage(),
    {
        proof {
            use_type_invariant(self);
        }
        self.damage
    }
}

} // verus!
