use sliding_puzzle::game::SlidingPuzzle;
use sliding_puzzle::io::{respond, GameInputHandler, GameOutputHandler, Intent, Reaction};

#[test]
fn move_intents_move_and_ask_for_a_redraw() {
    let mut game = SlidingPuzzle::solved();
    assert_eq!(respond(&mut game, Intent::MoveDown), Reaction::Redraw);
    assert_eq!(game.empty_cell(), (1, 2));
    assert_eq!(respond(&mut game, Intent::MoveRight), Reaction::Redraw);
    assert_eq!(game.empty_cell(), (1, 1));
    assert_eq!(respond(&mut game, Intent::MoveUp), Reaction::Redraw);
    assert_eq!(game.empty_cell(), (2, 1));
    assert_eq!(respond(&mut game, Intent::MoveLeft), Reaction::Redraw);
    assert_eq!(game.empty_cell(), (2, 2));
    assert_eq!(game.get_state(1, 1), (8, false));
    assert_eq!(game.get_state(1, 2), (5, false));
    assert_eq!(game.get_state(2, 1), (6, false));
}

#[test]
fn illegal_move_intent_still_asks_for_a_redraw() {
    let mut game = SlidingPuzzle::solved();
    assert_eq!(respond(&mut game, Intent::MoveUp), Reaction::Redraw);
    assert_eq!(game.empty_cell(), (2, 2));
    assert!(game.is_complete());
}

#[test]
fn quit_stops_and_leaves_the_board_alone() {
    let mut game = SlidingPuzzle::solved();
    game.move_right();
    assert_eq!(respond(&mut game, Intent::Quit), Reaction::Stop);
    assert_eq!(game.empty_cell(), (2, 1));
    assert_eq!(game.get_state(2, 2), (8, false));
}

#[test]
fn other_keys_are_ignored() {
    let mut game = SlidingPuzzle::solved();
    game.move_down();
    assert_eq!(respond(&mut game, Intent::Other), Reaction::Ignore);
    assert_eq!(game.empty_cell(), (1, 2));
    assert_eq!(game.get_state(2, 2), (6, false));
}

struct Script {
    intents: Vec<Intent>,
}

struct Recorder {
    frames: Vec<(Vec<u32>, bool)>,
}

impl GameInputHandler for Script {
    fn handle_io_and_print(
        self,
        output_handler: &mut dyn GameOutputHandler,
        game: &mut SlidingPuzzle,
    ) {
        output_handler.draw(game, game.is_complete());
        for intent in self.intents {
            match respond(game, intent) {
                Reaction::Redraw => output_handler.draw(game, game.is_complete()),
                Reaction::Stop => break,
                Reaction::Ignore => {}
            }
        }
    }
}

impl GameOutputHandler for Recorder {
    fn draw(&mut self, game: &SlidingPuzzle, won: bool) {
        let (rows, cols) = game.get_size();
        let mut cells: Vec<u32> = Vec::new();
        for r in 0..rows {
            for c in 0..cols {
                cells.push(game.get_state(r, c).0);
            }
        }
        self.frames.push((cells, won));
    }
}

#[test]
fn a_session_draws_after_every_move_until_quit() {
    let mut game = SlidingPuzzle::solved();
    let mut recorder = Recorder { frames: Vec::new() };
    let script = Script {
        intents: vec![
            Intent::MoveRight,
            Intent::Other,
            Intent::MoveLeft,
            Intent::Quit,
            Intent::MoveDown,
        ],
    };
    script.handle_io_and_print(&mut recorder, &mut game);
    assert_eq!(
        recorder.frames,
        vec![
            (vec![1, 2, 3, 4, 5, 6, 7, 8, 0], true),
            (vec![1, 2, 3, 4, 5, 6, 7, 0, 8], false),
            (vec![1, 2, 3, 4, 5, 6, 7, 8, 0], true),
        ]
    );
    assert!(game.is_complete());
}
