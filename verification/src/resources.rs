//! Resource stocks: food, technology and gold.

use std::ops::Add;
use vstd::prelude::*;
use vstd::std_specs::ops::AddSpecImpl;

verus! {

/// The mathematical value of a resource stock: one unbounded integer per kind.
pub struct Stock {
    pub food: int,
    pub technology: int,
    pub gold: int,
}

impl Stock {
    /// The empty stock, the identity of `plus`.
    pub open spec fn zero() -> Stock {
        Stock { food: 0, technology: 0, gold: 0 }
    }

    /// Component-wise sum.
    pub open spec fn plus(self, other: Stock) -> Stock {
        Stock {
            food: self.food + other.food,
            technology: self.technology + other.technology,
            gold: self.gold + other.gold,
        }
    }

    /// Every component can be held in an `i32`.
    pub open spec fn fits(self) -> bool {
        &&& i32::MIN <= self.food <= i32::MAX
        &&& i32::MIN <= self.technology <= i32::MAX
        &&& i32::MIN <= self.gold <= i32::MAX
    }
}

/// A stock of the three resources. Components may be negative.
#[derive(Debug, Clone, Copy, PartialEq, Eq, Structural)]
pub struct Resources {
    pub food: i32,
    pub technology: i32,
    pub gold: i32,
}

impl View for Resources {
    type V = Stock;

    open spec fn view(&self) -> Stock {
        Stock { food: self.food as int, technology: self.technology as int, gold: self.gold as int }
    }
}

impl Resources {
    /// The stock that holds nothing.
    pub fn new() -> (r: Resources)
        ensures
            r@ == Stock::zero(),
    {
        Resources { food: 0, technology: 0, gold: 0 }
    }

    /// Component-wise sum, or `None` where a component would leave the range
    /// of `i32`.
    pub fn checked_add(self, other: Resources) -> (sum: Option<Resources>)
        ensures
            match sum {
                Some(r) => r@ == self@.plus(other@),
                None => !self@.plus(other@).fits(),
            },
    {
        let food = match self.food.checked_add(other.food) {
            Some(n) => n,
            None => {
                return None;
            },
        };
        let technology = match self.technology.checked_add(other.technology) {
            Some(n) => n,
            None => {
                return None;
            },
        };
        let gold = match self.gold.checked_add(other.gold) {
            Some(n) => n,
            None => {
                return None;
            },
        };
        Some(Resources { food, technology, gold })
    }

    /// The stock whose value is `s`, meaningful where `s.fits()`.
    pub open spec fn of(s: Stock) -> Resources {
        Resources { food: s.food as i32, technology: s.technology as i32, gold: s.gold as i32 }
    }

    /// The sum of the two stocks can be held: `self + other` is defined.
    pub open spec fn can_add(self, other: Resources) -> bool {
        self@.plus(other@).fits()
    }

    /// What `self + other` is, where it is defined.
    pub open spec fn sum(self, other: Resources) -> Resources {
        Resources::of(self@.plus(other@))
    }
}

impl AddSpecImpl for Resources {
    open spec fn obeys_add_spec() -> bool {
        true
    }

    open spec fn add_req(self, rhs: Resources) -> bool {
        self.can_add(rhs)
    }

    open spec fn add_spec(self, rhs: Resources) -> Resources {
        self.sum(rhs)
    }
}

impl Add for Resources {
    type Output = Resources;

    /// Component-wise sum, defined where no component leaves the range of `i32`.
    fn add(self, other: Resources) -> (sum: Resources)
        ensures
            sum@ == self@.plus(other@),
    {
        Resources {
            food: self.food + other.food,
            technology: self.technology + other.technology,
            gold: self.gold + other.gold,
        }
    }
}

/// Adding stocks does not depend on their order: `a + b` is `b + a`.
pub proof fn lemma_add_commutative(a: Resources, b: Resources)
    ensures
        a@.plus(b@) == b@.plus(a@),
        a.can_add(b) == b.can_add(a),
        a.sum(b) == b.sum(a),
{
}

/// Adding stocks does not depend on their grouping: `(a + b) + c` is
/// `a + (b + c)`. Where all four sums fit, this holds of the stocks
/// themselves.
pub proof fn lemma_add_associative(a: Resources, b: Resources, c: Resources)
    ensures
        a@.plus(b@).plus(c@) == a@.plus(b@.plus(c@)),
        a.can_add(b) && a.sum(b).can_add(c) && b.can_add(c) && a.can_add(b.sum(c))
            ==> a.sum(b).sum(c) == a.sum(b.sum(c)),
{
}

/// The empty stock is the identity of addition: `a + zero` is `a`.
pub proof fn lemma_add_zero(a: Resources, zero: Resources)
    requires
        zero@ == Stock::zero(),
    ensures
        a@.plus(zero@) == a@,
        zero@.plus(a@) == a@,
        a.can_add(zero),
        a.sum(zero) == a,
{
}

} // verus!
