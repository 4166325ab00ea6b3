//! A small turn-based strategy simulation: a galaxy of connected solar
//! systems owned by players, buildings that produce resources, and fleets of
//! ships that can be merged and split.

pub mod building;
pub mod error;
pub mod fleet;
pub mod game;
pub mod graphics;
pub mod player;
pub mod resources;
pub mod ship;
pub mod solar_system;
pub mod starmap;

pub use building::{Building, BuildingClass};
pub use error::GameError;
pub use fleet::{Fleet, FleetLocation};
pub use game::{Session, SpaceEmpire};
pub use graphics::{Action, Color, DrawCommand, Event, Game, KeyCode};
pub use player::{Player, PlayerId};
pub use resources::{Resources, Stock};
pub use ship::{Ship, ShipClass};
pub use solar_system::{SolarSystem, SolarSystemId, SystemView};
pub use starmap::{Galaxy, Starmap, SystemsConnection};
