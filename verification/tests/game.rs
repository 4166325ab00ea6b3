use space_empire::graphics::turn;
use space_empire::{
    Action, BuildingClass, Color, DrawCommand, Event, Game, KeyCode, PlayerId, Resources,
    SolarSystemId, SpaceEmpire,
};

fn resources_of(game: &SpaceEmpire) -> Vec<Resources> {
    game.players().iter().map(|p| p.resources).collect()
}

fn gold(amount: i32) -> Resources {
    Resources { food: 0, technology: 0, gold: amount }
}

#[test]
fn new_session_has_the_universe_and_two_players() {
    let game = SpaceEmpire::new();
    assert_eq!(game.starmap().systems().len(), 9);
    assert_eq!(game.starmap().neighbours().len(), 20);
    let players = game.players();
    assert_eq!(players.len(), 2);
    assert_eq!(players[0].id, PlayerId(0));
    assert_eq!(players[1].id, PlayerId(1));
    assert_eq!(resources_of(&game), vec![Resources::new(), Resources::new()]);
    for system in game.starmap().systems() {
        assert_eq!(system.owner(), None);
        assert!(system.building().is_none());
    }
}

#[test]
fn step_without_homeworlds_gathers_nothing() {
    let mut game = SpaceEmpire::new();
    assert!(game.can_step());
    game.step();
    assert_eq!(resources_of(&game), vec![gold(0), gold(0)]);
}

#[test]
fn session_homeworlds_go_to_its_players() {
    let mut game = SpaceEmpire::new();
    assert_eq!(game.set_homeworlds(), Ok(()));
    let first = game.starmap().system(SolarSystemId(0)).ok().map(|s| (s.owner(), s.building().map(|b| b.class())));
    assert_eq!(first, Some((Some(PlayerId(0)), Some(BuildingClass::GoldMine))));
    let second = game.starmap().system(SolarSystemId(8)).ok().map(|s| (s.owner(), s.building().map(|b| b.class())));
    assert_eq!(second, Some((Some(PlayerId(1)), Some(BuildingClass::GoldMine))));
    assert_eq!(resources_of(&game), vec![gold(0), gold(0)]);
}

#[test]
fn step_gathers_for_every_player() {
    let mut game = SpaceEmpire::new();
    assert_eq!(game.set_homeworlds(), Ok(()));
    assert!(game.can_step());
    game.step();
    assert_eq!(resources_of(&game), vec![gold(8), gold(8)]);
    game.step();
    game.step();
    assert_eq!(resources_of(&game), vec![gold(24), gold(24)]);
    assert_eq!(game.players()[0].id, PlayerId(0));
    assert_eq!(game.players()[1].id, PlayerId(1));
}

#[test]
fn the_session_is_drawn_as_its_map() {
    let game = SpaceEmpire::new();
    assert_eq!(game.display(), game.starmap().display());
    assert_eq!(game.display().len(), 38);
}

#[test]
fn quit_and_escape_stop_the_loop() {
    let mut game = SpaceEmpire::new();
    assert_eq!(game.set_homeworlds(), Ok(()));
    assert_eq!(turn(&mut game, Event::Quit), Action::Quit);
    assert_eq!(turn(&mut game, Event::KeyDown(KeyCode::Escape)), Action::Quit);
    assert_eq!(resources_of(&game), vec![gold(0), gold(0)]);
}

#[test]
fn space_takes_one_step_and_draws() {
    let mut game = SpaceEmpire::new();
    assert_eq!(game.set_homeworlds(), Ok(()));
    let action = turn(&mut game, Event::KeyDown(KeyCode::Space));
    assert_eq!(resources_of(&game), vec![gold(8), gold(8)]);
    let mut expected = vec![DrawCommand::SetColor(Color { r: 0, g: 0, b: 0 }), DrawCommand::Clear];
    expected.extend(game.display());
    expected.push(DrawCommand::Present);
    match action {
        Action::Draw(commands) => assert_eq!(commands, expected),
        other => panic!("expected a frame, got {:?}", other),
    }
}

#[test]
fn other_events_only_draw() {
    let mut game = SpaceEmpire::new();
    assert_eq!(game.set_homeworlds(), Ok(()));
    for event in [Event::Other, Event::KeyDown(KeyCode::Other)] {
        match turn(&mut game, event) {
            Action::Draw(commands) => {
                assert_eq!(commands.len(), 2 + 38 + 1);
                assert_eq!(commands[0], DrawCommand::SetColor(Color { r: 0, g: 0, b: 0 }));
                assert_eq!(commands[1], DrawCommand::Clear);
                assert_eq!(commands[2..40], game.display()[..]);
                assert_eq!(commands[40], DrawCommand::Present);
            }
            other => panic!("expected a frame, got {:?}", other),
        }
    }
    assert_eq!(resources_of(&game), vec![gold(0), gold(0)]);
}

struct Counter {
    steps: u32,
    limit: u32,
}

impl Game for Counter {
    fn can_step(&self) -> bool {
        self.steps < self.limit
    }

    fn step(&mut self) {
        self.steps += 1;
    }

    fn display(&self) -> Vec<DrawCommand> {
        vec![DrawCommand::Rect { x: 0, y: 0, width: self.steps, height: 1 }]
    }
}

#[test]
fn a_game_that_cannot_step_is_left_alone() {
    let mut game = Counter { steps: 0, limit: 1 };
    match turn(&mut game, Event::KeyDown(KeyCode::Space)) {
        Action::Draw(commands) => assert_eq!(
            commands,
            vec![
                DrawCommand::SetColor(Color { r: 0, g: 0, b: 0 }),
                DrawCommand::Clear,
                DrawCommand::Rect { x: 0, y: 0, width: 1, height: 1 },
                DrawCommand::Present,
            ]
        ),
        other => panic!("expected a frame, got {:?}", other),
    }
    assert_eq!(turn(&mut game, Event::KeyDown(KeyCode::Space)), Action::Stuck);
    assert_eq!(game.steps, 1);
    assert!(matches!(turn(&mut game, Event::Other), Action::Draw(_)));
    assert_eq!(game.steps, 1);
}
