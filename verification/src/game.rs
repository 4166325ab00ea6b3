//! One session of the game: a star map and its players.

use crate::error::GameError;
use crate::graphics::{DrawCommand, Game};
use crate::player::{Player, PlayerId};
use crate::resources::{Resources, Stock};
use crate::starmap::{universe, Galaxy, Starmap};
use vstd::prelude::*;

verus! {

/// What a session is: the galaxy and the players, in the order of their ids.
pub struct Session {
    pub galaxy: Galaxy,
    pub players: Seq<Player>,
}

impl Session {
    /// Every player can gather once more without leaving the range of `i32`.
    pub open spec fn ready(self) -> bool {
        forall|i: int|
            0 <= i < self.players.len() ==> (#[trigger] self.players[i]).after_gathering(
                self.galaxy,
            ).fits()
    }

    /// The session after one step: every player has gathered once.
    pub open spec fn stepped(self) -> Session {
        Session {
            galaxy: self.galaxy,
            players: self.players.map_values(
                |p: Player|
                    Player { id: p.id, resources: Resources::of(p.after_gathering(self.galaxy)) },
            ),
        }
    }
}

/// A session: one star map and a fixed set of players.
pub struct SpaceEmpire {
    starmap: Starmap,
    players: Vec<Player>,
}

impl View for SpaceEmpire {
    type V = Session;

    closed spec fn view(&self) -> Session {
        Session { galaxy: self.starmap@, players: self.players@ }
    }
}

impl SpaceEmpire {
    /// A new session: the generated universe and two players without
    /// resources or homeworlds.
    pub fn new() -> (game: SpaceEmpire)
        ensures
            game@.galaxy == universe(),
            game@.players.len() == 2,
            forall|i: int|
                0 <= i < 2 ==> (#[trigger] game@.players[i]).id == PlayerId(i as u32)
                    && game@.players[i].resources@ == Stock::zero(),
    {
        SpaceEmpire { starmap: Starmap::generate_universe(), players: Player::create_players(2) }
    }

    /// The star map.
    pub fn starmap(&self) -> (stars: &Starmap)
        ensures
            stars@ == self@.galaxy,
    {
        &self.starmap
    }

    /// The players, in the order of their ids.
    pub fn players(&self) -> (players: &[Player])
        ensures
            players@ == self@.players,
    {
        self.players.as_slice()
    }

    /// Gives the players of the session their homeworlds, as
    /// `Starmap::set_homeworlds` does for their ids.
    pub fn set_homeworlds(&mut self) -> (done: Result<(), GameError>)
        ensures
            final(self)@.players == old(self)@.players,
            old(self)@.players.len() != 2 ==> done == Err::<(), GameError>(
                GameError::InvalidPlayerCount,
            ),
            old(self)@.players.len() == 2 && !old(self)@.galaxy.has_homeworlds() ==> done == Err::<
                (),
                GameError,
            >(GameError::UnknownSystem),
            old(self)@.players.len() == 2 && old(self)@.galaxy.has_homeworlds() ==> done is Ok,
            done is Ok ==> final(self)@.galaxy == old(self)@.galaxy.with_homeworlds(
                old(self)@.players[0].id,
                old(self)@.players[1].id,
            ),
            done is Err ==> final(self)@.galaxy == old(self)@.galaxy,
    {
        let mut ids: Vec<PlayerId> = Vec::new();
        let mut i: usize = 0;
        while i < self.players.len()
            invariant
                i <= self.players@.len(),
                ids@.len() == i,
                forall|k: int| 0 <= k < i ==> #[trigger] ids@[k] == self.players@[k].id,
            decreases self.players@.len() - i,
        {
            ids.push(self.players[i].id);
            i += 1;
        }
        self.starmap.set_homeworlds(ids.as_slice())
    }
}

impl Game for SpaceEmpire {
    open spec fn ready(&self) -> bool {
        self@.ready()
    }

    open spec fn steps_to(&self, next: &SpaceEmpire) -> bool {
        next@ == self@.stepped()
    }

    open spec fn picture(&self) -> Seq<DrawCommand> {
        self@.galaxy.picture()
    }

    /// Whether every player can gather once more.
    fn can_step(&self) -> (yes: bool) {
        let mut i: usize = 0;
        while i < self.players.len()
            invariant
                i <= self.players@.len(),
                forall|k: int|
                    0 <= k < i ==> (#[trigger] self.players@[k]).after_gathering(
                        self.starmap@,
                    ).fits(),
            decreases self.players@.len() - i,
        {
            if self.players[i].gathered(&self.starmap).is_none() {
                assert(!self@.players[i as int].after_gathering(self@.galaxy).fits());
                return false;
            }
            i += 1;
        }
        true
    }

    /// One step of the simulation: every player gathers once.
    fn step(&mut self) {
        let mut i: usize = 0;
        while i < self.players.len()
            invariant
                i <= self.players@.len(),
                self.starmap@ == old(self).starmap@,
                self.players@.len() == old(self).players@.len(),
                old(self)@.ready(),
                forall|k: int|
                    0 <= k < i ==> #[trigger] self.players@[k] == old(self)@.stepped().players[k],
                forall|k: int|
                    i <= k < self.players@.len() ==> #[trigger] self.players@[k] == old(
                        self,
                    ).players@[k],
            decreases self.players@.len() - i,
        {
            assert(old(self)@.players[i as int].after_gathering(old(self)@.galaxy).fits());
            self.players[i].gather_resources(&self.starmap);
            i += 1;
        }
        assert(self@.players =~= old(self)@.stepped().players);
    }

    /// The commands that draw the star map.
    fn display(&self) -> (commands: Vec<DrawCommand>) {
        self.starmap.display()
    }
}

} // verus!
