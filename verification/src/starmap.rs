//! The galaxy: solar systems and the links between them.

use crate::error::GameError;
use crate::graphics::DrawCommand;
use crate::player::PlayerId;
use crate::resources::Stock;
use crate::solar_system::{SolarSystem, SolarSystemId, SystemView};
use vstd::prelude::*;

verus! {

/// A link from one solar system to another, by their ids.
#[derive(Debug, Clone, Copy, PartialEq, Eq, Hash, Structural)]
pub struct SystemsConnection {
    pub first: SolarSystemId,
    pub second: SolarSystemId,
}

impl SystemsConnection {
    /// The link from `system_a` to `system_b`.
    pub fn new(system_a: SolarSystemId, system_b: SolarSystemId) -> (link: SystemsConnection)
        ensures
            link == (SystemsConnection { first: system_a, second: system_b }),
    {
        SystemsConnection { first: system_a, second: system_b }
    }

    /// The line that shows the link on `stars`; refused where `stars` lacks
    /// one of the two systems.
    pub fn display(&self, stars: &Starmap) -> (drawn: Result<DrawCommand, GameError>)
        ensures
            match drawn {
                Ok(line) => stars@.has_system(self.first) && stars@.has_system(self.second)
                    && line == stars@.line(*self),
                Err(e) => !(stars@.has_system(self.first) && stars@.has_system(self.second))
                    && e == GameError::UnknownSystem,
            },
    {
        let first = match stars.system(self.first) {
            Ok(system) => system,
            Err(e) => {
                return Err(e);
            },
        };
        let second = match stars.system(self.second) {
            Ok(system) => system,
            Err(e) => {
                return Err(e);
            },
        };
        let (x1, y1) = first.center();
        let (x2, y2) = second.center();
        Ok(DrawCommand::Line { x1, y1, x2, y2 })
    }

    /// The same link, walked the other way.
    pub open spec fn reversed(self) -> SystemsConnection {
        SystemsConnection { first: self.second, second: self.first }
    }
}

/// The id of the system that the first player starts from.
pub const FIRST_HOMEWORLD: u32 = 0;

/// The id of the system that the second player starts from.
pub const SECOND_HOMEWORLD: u32 = 8;

/// What a star map is: its systems, in the order in which they were added,
/// and the links between them, one entry for each direction.
pub struct Galaxy {
    pub systems: Seq<SystemView>,
    pub neighbours: Seq<SystemsConnection>,
}

impl Galaxy {
    /// The galaxy without systems.
    pub open spec fn empty() -> Galaxy {
        Galaxy { systems: Seq::empty(), neighbours: Seq::empty() }
    }

    /// Some system has this id.
    pub open spec fn has_system(self, id: SolarSystemId) -> bool {
        exists|i: int| 0 <= i < self.systems.len() && (#[trigger] self.systems[i]).id == id
    }

    /// Where the system with this id stands among the systems.
    pub open spec fn index_of(self, id: SolarSystemId) -> int {
        choose|i: int| 0 <= i < self.systems.len() && (#[trigger] self.systems[i]).id == id
    }

    /// The system with this id, meaningful where there is one.
    pub open spec fn system(self, id: SolarSystemId) -> SystemView {
        self.systems[self.index_of(id)]
    }

    /// There is a link from `a` to `b`.
    pub open spec fn adjacent(self, a: SolarSystemId, b: SolarSystemId) -> bool {
        self.neighbours.contains(SystemsConnection { first: a, second: b })
    }

    /// The two systems that serve as homeworlds are on the map.
    pub open spec fn has_homeworlds(self) -> bool {
        self.has_system(SolarSystemId(FIRST_HOMEWORLD)) && self.has_system(
            SolarSystemId(SECOND_HOMEWORLD),
        )
    }

    /// The galaxy after its two homeworlds were given out: the system
    /// `FIRST_HOMEWORLD` to `first`, the system `SECOND_HOMEWORLD` to `second`.
    pub open spec fn with_homeworlds(self, first: PlayerId, second: PlayerId) -> Galaxy {
        Galaxy {
            systems: self.systems.map_values(
                |s: SystemView|
                    if s.id == SolarSystemId(FIRST_HOMEWORLD) {
                        s.homeworld_of(first)
                    } else if s.id == SolarSystemId(SECOND_HOMEWORLD) {
                        s.homeworld_of(second)
                    } else {
                        s
                    },
            ),
            neighbours: self.neighbours,
        }
    }

    /// What the systems of `player` yield in one gathering pass.
    pub open spec fn production(self, player: PlayerId) -> Stock {
        production_of(self.systems, player)
    }

    /// The line that shows a link: from the centre of the marker of its first
    /// system to the centre of the marker of its second.
    pub open spec fn line(self, link: SystemsConnection) -> DrawCommand {
        let from = self.system(link.first).middle();
        let to = self.system(link.second).middle();
        DrawCommand::Line { x1: from.0 as i32, y1: from.1 as i32, x2: to.0 as i32, y2: to.1 as i32 }
    }

    /// The commands that draw the map: the marker of each system, in the
    /// order of the systems, then the line of each link, in the order of the
    /// links.
    pub open spec fn picture(self) -> Seq<DrawCommand> {
        markers(self.systems) + self.neighbours.map_values(
            |link: SystemsConnection| self.line(link),
        )
    }

    /// No id names two systems, links join systems of the map, every link
    /// is there in both directions, and none is there twice.
    pub open spec fn wf(self) -> bool {
        &&& forall|i: int, j: int|
            0 <= i < j < self.systems.len() ==> (#[trigger] self.systems[i]).id != (
            #[trigger] self.systems[j]).id
        &&& forall|k: int|
            0 <= k < self.neighbours.len() ==> self.has_system(
                (#[trigger] self.neighbours[k]).first,
            ) && self.has_system(self.neighbours[k].second)
        &&& forall|k: int|
            0 <= k < self.neighbours.len() ==> self.neighbours.contains(
                (#[trigger] self.neighbours[k]).reversed(),
            )
        &&& forall|k: int, m: int|
            0 <= k < m < self.neighbours.len() ==> (#[trigger] self.neighbours[k]) != (
            #[trigger] self.neighbours[m])
    }
}

/// The sum of what these systems yield to `player` in one gathering pass.
pub open spec fn production_of(systems: Seq<SystemView>, player: PlayerId) -> Stock
    decreases systems.len(),
{
    if systems.len() == 0 {
        Stock::zero()
    } else {
        production_of(systems.drop_last(), player).plus(systems.last().yield_for(player))
    }
}

/// The markers of these systems, one after the other.
pub open spec fn markers(systems: Seq<SystemView>) -> Seq<DrawCommand>
    decreases systems.len(),
{
    if systems.len() == 0 {
        Seq::empty()
    } else {
        markers(systems.drop_last()) + systems.last().marker()
    }
}

/// The ten links of the generated universe, each in one direction:
///
/// ```text
/// 0 - 1 - 2
/// |     / |
/// 3   4   5
/// | /     |
/// 6 - 7 - 8
/// ```
pub open spec fn universe_edges() -> Seq<(u32, u32)> {
    seq![
        (0u32, 1u32),
        (1u32, 2u32),
        (2u32, 5u32),
        (5u32, 8u32),
        (7u32, 8u32),
        (6u32, 7u32),
        (3u32, 6u32),
        (0u32, 3u32),
        (4u32, 6u32),
        (2u32, 4u32),
    ]
}

/// The `n`-th system of the generated universe: empty, on a grid three wide.
pub open spec fn universe_system(n: int) -> SystemView {
    SystemView {
        location: ((n % 3) as i32, (n / 3) as i32),
        ..SystemView::empty(SolarSystemId(n as u32))
    }
}

/// The `k`-th link of the generated universe: each edge is followed by its
/// reverse.
pub open spec fn universe_link(k: int) -> SystemsConnection {
    let edge = universe_edges()[k / 2];
    if k % 2 == 0 {
        SystemsConnection { first: SolarSystemId(edge.0), second: SolarSystemId(edge.1) }
    } else {
        SystemsConnection { first: SolarSystemId(edge.1), second: SolarSystemId(edge.0) }
    }
}

/// The generated universe: nine systems and twenty links.
pub open spec fn universe() -> Galaxy {
    Galaxy {
        systems: Seq::new(9, |n: int| universe_system(n)),
        neighbours: Seq::new(20, |k: int| universe_link(k)),
    }
}

/// The galaxy: its systems, each under its own id, and the links between them.
pub struct Starmap {
    systems: Vec<SolarSystem>,
    neighbours: Vec<SystemsConnection>,
}

impl View for Starmap {
    type V = Galaxy;

    closed spec fn view(&self) -> Galaxy {
        galaxy_of(self.systems@, self.neighbours@)
    }
}

/// The galaxy that these systems and links make up.
spec fn galaxy_of(systems: Seq<SolarSystem>, neighbours: Seq<SystemsConnection>) -> Galaxy {
    Galaxy { systems: systems.map_values(|s: SolarSystem| s@), neighbours }
}

impl Starmap {
    #[verifier::type_invariant]
    spec fn inv(&self) -> bool {
        self@.wf()
    }

    /// A map without systems.
    pub fn new() -> (stars: Starmap)
        ensures
            stars@ == Galaxy::empty(),
            stars@.wf(),
    {
        let systems: Vec<SolarSystem> = Vec::new();
        assert(galaxy_of(systems@, Seq::empty()).systems =~= Seq::empty());
        Starmap { systems, neighbours: Vec::new() }
    }

    /// The universe: always the same nine systems and the same links.
    pub fn generate_universe() -> (stars: Starmap)
        ensures
            stars@ == universe(),
            stars@.wf(),
    {
        let edges: [(u32, u32); 10] = [
            (0, 1),
            (1, 2),
            (2, 5),
            (5, 8),
            (7, 8),
            (6, 7),
            (3, 6),
            (0, 3),
            (4, 6),
            (2, 4),
        ];

        let mut systems: Vec<SolarSystem> = Vec::new();
        let mut n: u32 = 0;
        while n < 9
            invariant
                n <= 9,
                systems@.len() == n,
                forall|i: int| 0 <= i < n ==> (#[trigger] systems@[i])@ == universe_system(i),
            decreases 9 - n,
        {
            let system = SolarSystem::located(SolarSystemId(n), (n % 3) as i32, (n / 3) as i32);
            systems.push(system);
            n += 1;
        }

        let mut neighbours: Vec<SystemsConnection> = Vec::new();
        let mut j: usize = 0;
        while j < 10
            invariant
                j <= 10,
                edges@ == universe_edges(),
                neighbours@.len() == 2 * j,
                forall|k: int| 0 <= k < 2 * j ==> #[trigger] neighbours@[k] == universe_link(k),
            decreases 10 - j,
        {
            let (a, b) = edges[j];
            neighbours.push(SystemsConnection::new(SolarSystemId(a), SolarSystemId(b)));
            neighbours.push(SystemsConnection::new(SolarSystemId(b), SolarSystemId(a)));
            j += 1;
        }

        proof {
            let galaxy = galaxy_of(systems@, neighbours@);
            assert(galaxy.systems =~= universe().systems);
            assert(galaxy.neighbours =~= universe().neighbours);
            lemma_universe_wf();
        }
        Starmap { systems, neighbours }
    }

    /// The systems, in the order in which they were added.
    pub fn systems(&self) -> (systems: &[SolarSystem])
        ensures
            systems@.len() == self@.systems.len(),
            forall|i: int| 0 <= i < systems@.len() ==> (#[trigger] systems@[i])@ == self@.systems[i],
            self@.wf(),
    {
        proof {
            use_type_invariant(self);
        }
        self.systems.as_slice()
    }

    /// The links, one entry for each direction.
    pub fn neighbours(&self) -> (links: &[SystemsConnection])
        ensures
            links@ == self@.neighbours,
            self@.wf(),
    {
        proof {
            use_type_invariant(self);
        }
        self.neighbours.as_slice()
    }

    /// Where the system with this id stands among the systems, if it is there.
    fn position(&self, id: SolarSystemId) -> (at: Option<usize>)
        ensures
            match at {
                Some(i) => self@.has_system(id) && i == self@.index_of(id) && i
                    < self.systems@.len(),
                None => !self@.has_system(id),
            },
    {
        proof {
            use_type_invariant(self);
        }
        let mut i: usize = 0;
        while i < self.systems.len()
            invariant
                i <= self.systems@.len(),
                self@.wf(),
                forall|k: int| 0 <= k < i ==> (#[trigger] self@.systems[k]).id != id,
            decreases self.systems@.len() - i,
        {
            if self.systems[i].id() == id {
                assert(self@.systems[i as int].id == id);
                return Some(i);
            }
            i += 1;
        }
        None
    }

    /// The system with this id.
    pub fn system(&self, id: SolarSystemId) -> (found: Result<&SolarSystem, GameError>)
        ensures
            match found {
                Ok(system) => self@.has_system(id) && system@ == self@.system(id),
                Err(e) => !self@.has_system(id) && e == GameError::UnknownSystem,
            },
    {
        match self.position(id) {
            Some(i) => Ok(&self.systems[i]),
            None => Err(GameError::UnknownSystem),
        }
    }

    /// Gives the two players their homeworlds: the system `FIRST_HOMEWORLD`
    /// to the first, the system `SECOND_HOMEWORLD` to the second, each with a
    /// gold mine. Refused, with nothing changed, unless there are exactly two
    /// players and the map has both systems.
    pub fn set_homeworlds(&mut self, players: &[PlayerId]) -> (done: Result<(), GameError>)
        ensures
            players@.len() != 2 ==> done == Err::<(), GameError>(GameError::InvalidPlayerCount),
            players@.len() == 2 && !old(self)@.has_homeworlds() ==> done == Err::<(), GameError>(
                GameError::UnknownSystem,
            ),
            players@.len() == 2 && old(self)@.has_homeworlds() ==> done is Ok,
            done is Ok ==> final(self)@ == old(self)@.with_homeworlds(players@[0], players@[1]),
            done is Err ==> final(self)@ == old(self)@,
            forall|id: SolarSystemId| final(self)@.has_system(id) == old(self)@.has_system(id),
            final(self)@.wf(),
    {
        proof {
            use_type_invariant(&*self);
        }
        if players.len() != 2 {
            return Err(GameError::InvalidPlayerCount);
        }
        let first = self.position(SolarSystemId(FIRST_HOMEWORLD));
        let second = self.position(SolarSystemId(SECOND_HOMEWORLD));
        match (first, second) {
            (Some(i), Some(j)) => {
                let mut neighbours: Vec<SystemsConnection> = Vec::new();
                std::mem::swap(&mut neighbours, &mut self.neighbours);
                let mut systems: Vec<SolarSystem> = Vec::new();
                std::mem::swap(&mut systems, &mut self.systems);
                systems[i].set_homeworld(players[0]);
                systems[j].set_homeworld(players[1]);
                proof {
                    let before = old(self)@;
                    let after = galaxy_of(systems@, neighbours@);
                    assert(after.systems =~= before.with_homeworlds(
                        players@[0],
                        players@[1],
                    ).systems);
                    assert forall|k: int| 0 <= k < after.neighbours.len() implies after.has_system(
                        (#[trigger] after.neighbours[k]).first,
                    ) && after.has_system(after.neighbours[k].second) by {
                        let link = before.neighbours[k];
                        let a = before.index_of(link.first);
                        let b = before.index_of(link.second);
                        assert(after.systems[a].id == link.first);
                        assert(after.systems[b].id == link.second);
                    }
                }
                self.systems = systems;
                self.neighbours = neighbours;
                proof {
                    assert forall|id: SolarSystemId|
                        self@.has_system(id) == old(self)@.has_system(id) by {
                        lemma_homeworlds_keep_systems(old(self)@, players@[0], players@[1], id);
                    }
                }
                Ok(())
            },
            _ => Err(GameError::UnknownSystem),
        }
    }

    /// The commands that draw the map: a marker for each system, then a line
    /// for each link.
    pub fn display(&self) -> (commands: Vec<DrawCommand>)
        ensures
            commands@ == self@.picture(),
    {
        proof {
            use_type_invariant(self);
        }
        let mut commands: Vec<DrawCommand> = Vec::new();
        let mut i: usize = 0;
        while i < self.systems.len()
            invariant
                i <= self.systems@.len(),
                commands@ == markers(self@.systems.take(i as int)),
            decreases self.systems@.len() - i,
        {
            let mut marker = self.systems[i].display();
            commands.append(&mut marker);
            proof {
                let shown = self@.systems.take(i + 1);
                assert(shown.drop_last() =~= self@.systems.take(i as int));
            }
            i += 1;
        }
        assert(self@.systems.take(i as int) =~= self@.systems);
        let ghost marked = commands@;
        let mut k: usize = 0;
        while k < self.neighbours.len()
            invariant
                k <= self.neighbours@.len(),
                self@.wf(),
                marked == markers(self@.systems),
                commands@.len() == marked.len() + k,
                commands@.take(marked.len() as int) == marked,
                forall|m: int|
                    0 <= m < k ==> #[trigger] commands@[marked.len() + m] == self@.line(
                        self@.neighbours[m],
                    ),
            decreases self.neighbours@.len() - k,
        {
            let link = self.neighbours[k];
            match link.display(self) {
                Ok(line) => {
                    commands.push(line);
                },
                Err(_) => {
                    assert(false);
                },
            }
            k += 1;
        }
        proof {
            let picture = self@.picture();
            assert forall|n: int| 0 <= n < picture.len() implies commands@[n] == picture[n] by {
                if n >= marked.len() {
                    assert(commands@[marked.len() + (n - marked.len())] == self@.line(
                        self@.neighbours[n - marked.len()],
                    ));
                }
            }
        }
        commands
    }
}

/// Giving out homeworlds takes no system off the map and puts none on it.
pub proof fn lemma_homeworlds_keep_systems(
    galaxy: Galaxy,
    first: PlayerId,
    second: PlayerId,
    id: SolarSystemId,
)
    ensures
        galaxy.with_homeworlds(first, second).has_system(id) == galaxy.has_system(id),
{
    let after = galaxy.with_homeworlds(first, second);
    if galaxy.has_system(id) {
        assert(after.systems[galaxy.index_of(id)].id == id);
    }
    if after.has_system(id) {
        assert(galaxy.systems[after.index_of(id)].id == id);
    }
}

/// Links run both ways: where a well-formed galaxy has a link from `a` to
/// `b`, it has the link from `b` to `a`.
pub proof fn lemma_adjacent_symmetric(galaxy: Galaxy, a: SolarSystemId, b: SolarSystemId)
    requires
        galaxy.wf(),
        galaxy.adjacent(a, b),
    ensures
        galaxy.adjacent(b, a),
{
    let link = SystemsConnection { first: a, second: b };
    let k = choose|k: int| 0 <= k < galaxy.neighbours.len() && galaxy.neighbours[k] == link;
    assert(galaxy.neighbours.contains(galaxy.neighbours[k].reversed()));
}

/// The generated universe is well formed, and none of its links joins a
/// system to itself.
pub proof fn lemma_universe_wf()
    ensures
        universe().wf(),
        forall|a: SolarSystemId| !universe().adjacent(a, a),
{
    let g = universe();
    assert forall|k: int| 0 <= k < g.neighbours.len() implies g.has_system(
        (#[trigger] g.neighbours[k]).first,
    ) && g.has_system(g.neighbours[k].second) && g.neighbours.contains(
        g.neighbours[k].reversed(),
    ) by {
        let edge = universe_edges()[k / 2];
        assert(g.systems[edge.0 as int].id == SolarSystemId(edge.0));
        assert(g.systems[edge.1 as int].id == SolarSystemId(edge.1));
        let other = if k % 2 == 0 {
            k + 1
        } else {
            k - 1
        };
        assert(g.neighbours[other] == g.neighbours[k].reversed());
    }
}

} // verus!
