//! What there is to draw, and how a driver reacts to input.
//!
//! Nothing here touches a window: a picture is a list of commands for
//! whoever owns one.

use vstd::prelude::*;

verus! {

/// A colour, by its red, green and blue parts.
#[derive(Debug, Clone, Copy, PartialEq, Eq, Structural)]
pub struct Color {
    pub r: u8,
    pub g: u8,
    pub b: u8,
}

/// One step of drawing.
#[derive(Debug, Clone, Copy, PartialEq, Eq, Structural)]
pub enum DrawCommand {
    /// Use this colour from now on.
    SetColor(Color),
    /// Fill the whole target with the current colour.
    Clear,
    /// Outline the rectangle whose top left corner is `(x, y)`.
    Rect { x: i32, y: i32, width: u32, height: u32 },
    /// Draw a line from `(x1, y1)` to `(x2, y2)`.
    Line { x1: i32, y1: i32, x2: i32, y2: i32 },
    /// Show what was drawn.
    Present,
}

/// The keys a driver tells apart.
#[derive(Debug, Clone, Copy, PartialEq, Eq, Structural)]
pub enum KeyCode {
    Escape,
    Space,
    Other,
}

/// What a driver saw since it last asked.
#[derive(Debug, Clone, Copy, PartialEq, Eq, Structural)]
pub enum Event {
    /// The window was closed.
    Quit,
    /// A key went down.
    KeyDown(KeyCode),
    /// Anything else, or nothing.
    Other,
}

impl Event {
    /// The event ends the game: the window was closed, or Escape pressed.
    pub open spec fn stops(self) -> bool {
        self == Event::Quit || self == Event::KeyDown(KeyCode::Escape)
    }

    /// The event asks for one step of the game: Space was pressed.
    pub open spec fn steps(self) -> bool {
        self == Event::KeyDown(KeyCode::Space)
    }
}

/// What a driver is to do next.
#[derive(Debug, PartialEq, Eq)]
pub enum Action {
    /// Leave the loop.
    Quit,
    /// Carry out these commands, then go on.
    Draw(Vec<DrawCommand>),
    /// A step was asked for that the game cannot take; the game is as it was.
    Stuck,
}

/// The background of every frame.
pub open spec fn background() -> Color {
    Color { r: 0, g: 0, b: 0 }
}

/// One frame: the background, the picture on it, and the frame shown.
pub open spec fn frame(picture: Seq<DrawCommand>) -> Seq<DrawCommand> {
    seq![DrawCommand::SetColor(background()), DrawCommand::Clear] + picture + seq![
        DrawCommand::Present,
    ]
}

/// A game that a driver can step and show.
///
/// The three spec functions say what an implementation promises. Their
/// defaults promise the least: a step can always be taken, it may lead
/// anywhere, and nothing is known of the picture, so that an implementation
/// whose `display` is to be verified has to say what it draws.
pub trait Game: Sized {
    /// A step can be taken: nothing that it computes leaves its range.
    open spec fn ready(&self) -> bool {
        true
    }

    /// `next` is what one step makes of this game.
    open spec fn steps_to(&self, next: &Self) -> bool {
        true
    }

    /// The commands that draw the game as it is.
    open spec fn picture(&self) -> Seq<DrawCommand> {
        arbitrary()
    }

    /// Whether a step can be taken.
    fn can_step(&self) -> (yes: bool)
        ensures
            yes == self.ready(),
    ;

    /// Takes one step.
    fn step(&mut self)
        requires
            old(self).ready(),
        ensures
            old(self).steps_to(final(self)),
    ;

    /// The commands that draw the game as it is.
    fn display(&self) -> (commands: Vec<DrawCommand>)
        ensures
            commands@ == self.picture(),
    ;
}

/// One round of a driver's loop: reacts to `event`, then says what to do.
///
/// An event that stops the game changes nothing and draws nothing. Space
/// takes one step where the game can take one; every other event leaves the
/// game as it is. The frame drawn shows the game after the step.
pub fn turn<G: Game>(game: &mut G, event: Event) -> (action: Action)
    ensures
        match action {
            Action::Quit => event.stops() && *final(game) == *old(game),
            Action::Stuck => event.steps() && !old(game).ready() && *final(game) == *old(game),
            Action::Draw(commands) => {
                &&& !event.stops()
                &&& commands@ == frame(final(game).picture())
                &&& if event.steps() {
                    old(game).ready() && old(game).steps_to(final(game))
                } else {
                    *final(game) == *old(game)
                }
            },
        },
{
    match event {
        Event::Quit => {
            return Action::Quit;
        },
        Event::KeyDown(key) => {
            match key {
                KeyCode::Escape => {
                    return Action::Quit;
                },
                KeyCode::Space => {
                    if !game.can_step() {
                        return Action::Stuck;
                    }
                    game.step();
                },
                KeyCode::Other => {},
            }
        },
        Event::Other => {},
    }
    let mut commands: Vec<DrawCommand> = Vec::new();
    commands.push(DrawCommand::SetColor(Color { r: 0, g: 0, b: 0 }));
    commands.push(DrawCommand::Clear);
    let mut picture = game.display();
    commands.append(&mut picture);
    commands.push(DrawCommand::Present);
    Action::Draw(commands)
}

} // verus!
