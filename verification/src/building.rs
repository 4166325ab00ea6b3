//! Buildings and what they produce.

use crate::resources::{Resources, Stock};
use vstd::prelude::*;

verus! {

/// The kinds of building a solar system can hold.
#[derive(Debug, Clone, Copy, PartialEq, Eq, Structural)]
pub enum BuildingClass {
    Farm,
    Laboratory,
    GoldMine,
}

impl BuildingClass {
    /// What a building of this class yields in one gathering pass.
    pub open spec fn production(self) -> Stock {
        match self {
            BuildingClass::Farm => Stock { food: 5, technology: 0, gold: 0 },
            BuildingClass::Laboratory => Stock { food: 0, technology: 2, gold: 0 },
            BuildingClass::GoldMine => Stock { food: 0, technology: 0, gold: 8 },
        }
    }
}

/// A building: its class, and the yield that the class fixes.
#[derive(Debug, Clone, Copy)]
pub struct Building {
    class: BuildingClass,
    production: Resources,
}

impl View for Building {
    type V = BuildingClass;

    /// A building is determined by its class.
    closed spec fn view(&self) -> BuildingClass {
        self.class
    }
}

impl Building {
    #[verifier::type_invariant]
    spec fn yields_by_class(&self) -> bool {
        self.production@ == self.class.production()
    }

    /// A new building of the given class.
    pub fn new(class: BuildingClass) -> (b: Building)
        ensures
            b@ == class,
    {
        let production = match class {
            BuildingClass::Farm => Resources { food: 5, technology: 0, gold: 0 },
            BuildingClass::Laboratory => Resources { food: 0, technology: 2, gold: 0 },
            BuildingClass::GoldMine => Resources { food: 0, technology: 0, gold: 8 },
        };
        Building { class, production }
    }

    /// The class this building was made with.
    pub fn class(&self) -> (c: BuildingClass)
        ensures
            c == self@,
    {
        self.class
    }

    /// What the building yields in one gathering pass.
    pub fn produce(&self) -> (r: Resources)
        ensures
            r@ == self@.production(),
    {
        proof {
            use_type_invariant(self);
        }
        self.production
    }
}

} // verus!
