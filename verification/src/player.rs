//! Players and the gathering of what their systems produce.

use crate::resources::{Resources, Stock};
use crate::solar_system::SystemView;
use crate::starmap::{production_of, Galaxy, Starmap};
use vstd::prelude::*;
use vstd::std_specs::cmp::PartialEqSpecImpl;

verus! {

/// Names a player.
#[derive(Debug, Clone, Copy, PartialEq, Eq, Hash, Structural)]
pub struct PlayerId(pub u32);

/// A player: a name and the resources gathered so far.
#[derive(Debug, Clone, Copy)]
pub struct Player {
    pub id: PlayerId,
    pub resources: Resources,
}

/// Two players are the same player where their ids are equal, whatever they
/// hold.
impl PartialEq for Player {
    fn eq(&self, other: &Player) -> (same: bool) {
        self.id == other.id
    }
}

impl PartialEqSpecImpl for Player {
    open spec fn obeys_eq_spec() -> bool {
        true
    }

    open spec fn eq_spec(&self, other: &Player) -> bool {
        self.id == other.id
    }
}

impl Player {
    /// What the player holds after one more gathering pass over `galaxy`.
    pub open spec fn after_gathering(self, galaxy: Galaxy) -> Stock {
        self.resources@.plus(galaxy.production(self.id))
    }

    /// The player with this id and no resources.
    pub fn new(id: u32) -> (player: Player)
        ensures
            player.id == PlayerId(id),
            player.resources@ == Stock::zero(),
    {
        Player { id: PlayerId(id), resources: Resources::new() }
    }

    /// The players `0` to `num - 1`, each without resources.
    pub fn create_players(num: u32) -> (players: Vec<Player>)
        ensures
            players@.len() == num,
            forall|i: int|
                0 <= i < num ==> (#[trigger] players@[i]).id == PlayerId(i as u32)
                    && players@[i].resources@ == Stock::zero(),
    {
        let mut players: Vec<Player> = Vec::new();
        let mut i: u32 = 0;
        while i < num
            invariant
                i <= num,
                players@.len() == i,
                forall|k: int|
                    0 <= k < i ==> (#[trigger] players@[k]).id == PlayerId(k as u32)
                        && players@[k].resources@ == Stock::zero(),
            decreases num - i,
        {
            players.push(Player::new(i));
            i += 1;
        }
        players
    }

    /// What the player would hold after one more gathering pass over `stars`,
    /// or `None` where that leaves the range of `i32`.
    pub fn gathered(&self, stars: &Starmap) -> (total: Option<Resources>)
        ensures
            match total {
                Some(r) => r@ == self.after_gathering(stars@),
                None => !self.after_gathering(stars@).fits(),
            },
    {
        let systems = stars.systems();
        let ghost all = stars@.systems;
        let mut total = self.resources;
        let mut i: usize = 0;
        while i < systems.len()
            invariant
                i <= systems@.len(),
                all == stars@.systems,
                systems@.len() == all.len(),
                forall|k: int| 0 <= k < systems@.len() ==> (#[trigger] systems@[k])@ == all[k],
                total@ == self.resources@.plus(production_of(all.take(i as int), self.id)),
            decreases systems@.len() - i,
        {
            let system = &systems[i];
            proof {
                let seen = all.take(i + 1);
                assert(seen.drop_last() =~= all.take(i as int));
            }
            let owned = match system.owner() {
                Some(owner) => owner == self.id,
                None => false,
            };
            if owned {
                if let Some(building) = system.building() {
                    match total.checked_add(building.produce()) {
                        Some(sum) => {
                            total = sum;
                        },
                        None => {
                            proof {
                                lemma_production_grows(all, self.id, i + 1, all.len() as int);
                                assert(all.take(all.len() as int) =~= all);
                            }
                            return None;
                        },
                    }
                }
            }
            i += 1;
        }
        assert(all.take(i as int) =~= all);
        Some(total)
    }

    /// Adds to the player's resources what the systems that the player owns
    /// produce in one pass. Each pass adds again: the resources accumulate.
    pub fn gather_resources(&mut self, stars: &Starmap)
        requires
            old(self).after_gathering(stars@).fits(),
        ensures
            final(self).id == old(self).id,
            final(self).resources@ == old(self).after_gathering(stars@),
            owns_nothing(stars@, old(self).id) ==> final(self).resources == old(self).resources,
    {
        let id = self.id;
        let systems = stars.systems();
        let ghost all = stars@.systems;
        let mut total = self.resources;
        let mut i: usize = 0;
        while i < systems.len()
            invariant
                i <= systems@.len(),
                all == stars@.systems,
                systems@.len() == all.len(),
                forall|k: int| 0 <= k < systems@.len() ==> (#[trigger] systems@[k])@ == all[k],
                total@ == old(self).resources@.plus(production_of(all.take(i as int), id)),
                old(self).resources@.plus(production_of(all, id)).fits(),
            decreases systems@.len() - i,
        {
            let system = &systems[i];
            proof {
                let seen = all.take(i + 1);
                assert(seen.drop_last() =~= all.take(i as int));
                lemma_production_grows(all, id, i + 1, all.len() as int);
                assert(all.take(all.len() as int) =~= all);
            }
            let owned = match system.owner() {
                Some(owner) => owner == id,
                None => false,
            };
            if owned {
                if let Some(building) = system.building() {
                    total = total + building.produce();
                }
            }
            i += 1;
        }
        proof {
            assert(all.take(i as int) =~= all);
            if owns_nothing(stars@, id) {
                lemma_owns_nothing(stars@, id);
            }
        }
        self.resources = total;
    }
}

/// No system of `galaxy` is owned by `player`.
pub open spec fn owns_nothing(galaxy: Galaxy, player: PlayerId) -> bool {
    forall|i: int|
        0 <= i < galaxy.systems.len() ==> (#[trigger] galaxy.systems[i]).owner != Some(player)
}

/// A player who owns no system gathers nothing.
pub proof fn lemma_owns_nothing(galaxy: Galaxy, player: PlayerId)
    requires
        owns_nothing(galaxy, player),
    ensures
        galaxy.production(player) == Stock::zero(),
    decreases galaxy.systems.len(),
{
    if galaxy.systems.len() > 0 {
        let rest = Galaxy { systems: galaxy.systems.drop_last(), neighbours: galaxy.neighbours };
        lemma_owns_nothing(rest, player);
    }
}

/// Production never shrinks as more systems are counted: no building yields
/// less than nothing.
pub proof fn lemma_production_grows(systems: Seq<SystemView>, player: PlayerId, i: int, j: int)
    requires
        0 <= i <= j <= systems.len(),
    ensures
        production_of(systems.take(i), player).food <= production_of(systems.take(j), player).food,
        production_of(systems.take(i), player).technology <= production_of(
            systems.take(j),
            player,
        ).technology,
        production_of(systems.take(i), player).gold <= production_of(systems.take(j), player).gold,
    decreases j - i,
{
    if i < j {
        lemma_production_grows(systems, player, i, j - 1);
        assert(systems.take(j).drop_last() =~= systems.take(j - 1));
    }
}

} // verus!
