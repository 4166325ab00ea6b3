//! Solar systems: the nodes of the galaxy.

use crate::building::{Building, BuildingClass};
use crate::fleet::Fleet;
use crate::graphics::{Color, DrawCommand};
use crate::player::PlayerId;
use crate::resources::Stock;
use vstd::prelude::*;

verus! {

/// Names a solar system.
#[derive(Debug, Clone, Copy, PartialEq, Eq, Hash, Structural)]
pub struct SolarSystemId(pub u32);

/// Pixels between the markers of two systems that are one grid step apart.
pub const GRID_STEP: i32 = 80;

/// Width and height of a system's marker, in pixels.
pub const MARKER_SIZE: u32 = 50;

/// Distance from a marker's top left corner to its centre, along each axis.
pub const MARKER_HALF: i32 = 25;

/// The colour of the markers and of the lines between them.
pub open spec fn marker_color() -> Color {
    Color { r: 0, g: 0, b: 255 }
}

/// The marker of a system at `location` lies within the range of `i32`.
pub open spec fn on_canvas(location: (i32, i32)) -> bool {
    &&& i32::MIN <= location.0 * GRID_STEP
    &&& location.0 * GRID_STEP + MARKER_HALF <= i32::MAX
    &&& i32::MIN <= location.1 * GRID_STEP
    &&& location.1 * GRID_STEP + MARKER_HALF <= i32::MAX
}

/// What a solar system is: who owns it, what stands on it, where it lies.
pub struct SystemView {
    pub id: SolarSystemId,
    pub building: Option<BuildingClass>,
    pub owner: Option<PlayerId>,
    pub fleet: Option<Fleet>,
    pub location: (i32, i32),
}

impl SystemView {
    /// A system nobody owns, with nothing on it, at the origin of the grid.
    pub open spec fn empty(id: SolarSystemId) -> SystemView {
        SystemView { id, building: None, owner: None, fleet: None, location: (0, 0) }
    }

    /// This system with a building of `class` in place of whatever stood there.
    pub open spec fn built(self, class: BuildingClass) -> SystemView {
        SystemView { building: Some(class), ..self }
    }

    /// This system as the homeworld of `player`: owned, with a gold mine.
    pub open spec fn homeworld_of(self, player: PlayerId) -> SystemView {
        SystemView { owner: Some(player), building: Some(BuildingClass::GoldMine), ..self }
    }

    /// This system after control of it was lost.
    pub open spec fn cleared(self) -> SystemView {
        SystemView { building: None, owner: None, fleet: None, ..self }
    }

    /// What the system yields to `player` in one gathering pass: the
    /// production of its building where `player` owns it, nothing otherwise.
    pub open spec fn yield_for(self, player: PlayerId) -> Stock {
        match self.building {
            Some(class) if self.owner == Some(player) => class.production(),
            _ => Stock::zero(),
        }
    }

    /// Top left corner of the marker, in pixels. The commands below hold it
    /// as it is where the system is `on_canvas`, as every `SolarSystem` is.
    pub open spec fn corner(self) -> (int, int) {
        (self.location.0 * GRID_STEP, self.location.1 * GRID_STEP)
    }

    /// Centre of the marker, in pixels.
    pub open spec fn middle(self) -> (int, int) {
        (self.corner().0 + MARKER_HALF, self.corner().1 + MARKER_HALF)
    }

    /// The commands that draw the marker.
    pub open spec fn marker(self) -> Seq<DrawCommand> {
        seq![
            DrawCommand::SetColor(marker_color()),
            DrawCommand::Rect {
                x: self.corner().0 as i32,
                y: self.corner().1 as i32,
                width: MARKER_SIZE,
                height: MARKER_SIZE,
            },
        ]
    }
}

/// One location of the galaxy. Its marker always lies on the canvas.
pub struct SolarSystem {
    id: SolarSystemId,
    building: Option<Building>,
    owner: Option<PlayerId>,
    fleet: Option<Fleet>,
    location: (i32, i32),
}

impl View for SolarSystem {
    type V = SystemView;

    closed spec fn view(&self) -> SystemView {
        SystemView {
            id: self.id,
            building: match self.building {
                Some(b) => Some(b@),
                None => None,
            },
            owner: self.owner,
            fleet: self.fleet,
            location: self.location,
        }
    }
}

impl SolarSystem {
    #[verifier::type_invariant]
    spec fn inv(&self) -> bool {
        on_canvas(self.location)
    }

    /// A system nobody owns, with nothing on it, at the origin of the grid.
    pub fn new(id: SolarSystemId) -> (system: SolarSystem)
        ensures
            system@ == SystemView::empty(id),
    {
        SolarSystem { id, building: None, owner: None, fleet: None, location: (0, 0) }
    }

    /// An empty system at a place of the grid.
    pub(crate) fn located(id: SolarSystemId, x: i32, y: i32) -> (system: SolarSystem)
        requires
            on_canvas((x, y)),
        ensures
            system@ == (SystemView { location: (x, y), ..SystemView::empty(id) }),
    {
        SolarSystem { id, building: None, owner: None, fleet: None, location: (x, y) }
    }

    /// The system's name.
    pub fn id(&self) -> (id: SolarSystemId)
        ensures
            id == self@.id,
    {
        self.id
    }

    /// The player who owns the system, if any.
    pub fn owner(&self) -> (owner: Option<PlayerId>)
        ensures
            owner == self@.owner,
    {
        self.owner
    }

    /// The building that stands on the system, if any.
    pub fn building(&self) -> (building: Option<Building>)
        ensures
            match building {
                Some(b) => self@.building == Some(b@),
                None => self@.building is None,
            },
    {
        self.building
    }

    /// The fleet stationed at the system, if any.
    pub fn fleet(&self) -> (fleet: Option<&Fleet>)
        ensures
            match fleet {
                Some(f) => self@.fleet == Some(*f),
                None => self@.fleet is None,
            },
    {
        self.fleet.as_ref()
    }

    /// Where the system lies on the grid.
    pub fn location(&self) -> (location: (i32, i32))
        ensures
            location == self@.location,
            on_canvas(location),
    {
        proof {
            use_type_invariant(self);
        }
        self.location
    }

    /// Makes the system the homeworld of `player`: owned, with a gold mine.
    pub fn set_homeworld(&mut self, player: PlayerId)
        ensures
            final(self)@ == old(self)@.homeworld_of(player),
    {
        proof {
            use_type_invariant(&*self);
        }
        self.owner = Some(player);
        self.build(BuildingClass::GoldMine);
    }

    /// Puts a new building of `class` in place of whatever stood there.
    pub fn build(&mut self, class: BuildingClass)
        ensures
            final(self)@ == old(self)@.built(class),
    {
        proof {
            use_type_invariant(&*self);
        }
        let building = Building::new(class);
        self.building = Some(building);
    }

    /// Removes building, owner and fleet: control of the system is lost.
    pub fn clear(&mut self)
        ensures
            final(self)@ == old(self)@.cleared(),
    {
        proof {
            use_type_invariant(&*self);
        }
        self.building = None;
        self.owner = None;
        self.fleet = None;
    }

    /// The commands that draw the system's marker.
    pub fn display(&self) -> (commands: Vec<DrawCommand>)
        ensures
            commands@ == self@.marker(),
    {
        let (x, y) = self.display_location();
        let mut commands = Vec::new();
        commands.push(DrawCommand::SetColor(Color { r: 0, g: 0, b: 255 }));
        commands.push(DrawCommand::Rect { x, y, width: MARKER_SIZE, height: MARKER_SIZE });
        commands
    }

    /// Top left corner of the marker, in pixels.
    pub fn display_location(&self) -> (corner: (i32, i32))
        ensures
            corner.0 == self@.corner().0,
            corner.1 == self@.corner().1,
    {
        proof {
            use_type_invariant(self);
        }
        let (x, y) = self.location;
        (x * GRID_STEP, y * GRID_STEP)
    }

    /// Centre of the marker, in pixels.
    pub fn center(&self) -> (middle: (i32, i32))
        ensures
            middle.0 == self@.middle().0,
            middle.1 == self@.middle().1,
    {
        proof {
            use_type_invariant(self);
        }
        let (x, y) = self.display_location();
        (x + MARKER_HALF, y + MARKER_HALF)
    }
}

} // verus!
