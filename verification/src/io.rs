//! The two collaborators of the puzzle engine, and what the engine does with
//! each thing the player may ask for.

use crate::board::Board;
use crate::game::SlidingPuzzle;
use vstd::prelude::*;

verus! {

/// What the player asks for with one key.
#[derive(Clone, Copy, Debug, PartialEq, Eq, Structural)]
pub enum Intent {
    MoveUp,
    MoveDown,
    MoveLeft,
    MoveRight,
    Quit,
    Other,
}

/// What the session does once an intent has been handled.
#[derive(Clone, Copy, Debug, PartialEq, Eq, Structural)]
pub enum Reaction {
    /// The board was handed a move: draw it again.
    Redraw,
    /// The player quit: end the session.
    Stop,
    /// The key meant nothing: wait for the next one.
    Ignore,
}

/// The board after an intent: a move intent applies its move, the others leave
/// the board alone.
pub open spec fn board_after(b: Board, intent: Intent) -> Board {
    match intent {
        Intent::MoveUp => b.move_up(),
        Intent::MoveDown => b.move_down(),
        Intent::MoveLeft => b.move_left(),
        Intent::MoveRight => b.move_right(),
        Intent::Quit => b,
        Intent::Other => b,
    }
}

/// The reaction that an intent calls for.
pub open spec fn reaction_to(intent: Intent) -> Reaction {
    match intent {
        Intent::Quit => Reaction::Stop,
        Intent::Other => Reaction::Ignore,
        _ => Reaction::Redraw,
    }
}

/// Handles one intent of the player: applies the move it names, if any, and
/// says what the session does next.
pub fn respond(game: &mut SlidingPuzzle, intent: Intent) -> (reaction: Reaction)
    ensures
        final(game)@ == board_after(old(game)@, intent),
        final(game)@.wf(),
        reaction == reaction_to(intent),
{
    proof {
        use_type_invariant(&*game);
    }
    match intent {
        Intent::MoveUp => {
            game.move_up();
            Reaction::Redraw
        },
        Intent::MoveDown => {
            game.move_down();
            Reaction::Redraw
        },
        Intent::MoveLeft => {
            game.move_left();
            Reaction::Redraw
        },
        Intent::MoveRight => {
            game.move_right();
            Reaction::Redraw
        },
        Intent::Quit => Reaction::Stop,
        Intent::Other => Reaction::Ignore,
    }
}

/// The source of the player's input: it runs a session on a puzzle, from the
/// first drawing of the board until the player quits.
pub trait GameInputHandler {
    fn handle_io_and_print(
        self,
        output_handler: &mut dyn GameOutputHandler,
        game: &mut SlidingPuzzle,
    );
}

/// The renderer: it shows the whole board, and that the puzzle is solved where
/// `won` says so.
pub trait GameOutputHandler {
    fn draw(&mut self, game: &SlidingPuzzle, won: bool)
        requires
            won <==> game@.is_complete(),
    ;
}

} // verus!
