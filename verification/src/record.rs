//! What one game leaves behind: its moves and its outcome.

use vstd::prelude::*;

verus! {

/// One of the two sides.
#[derive(Clone, Copy, Debug, PartialEq, Eq, Structural)]
pub enum Color {
    White,
    Black,
}

/// How a finished game ended.
#[derive(Clone, Copy, Debug, PartialEq, Eq, Structural)]
pub enum Outcome {
    Decisive { winner: Color },
    Draw,
}

/// The result notation of an outcome.
pub open spec fn outcome_notation(outcome: Outcome) -> Seq<char> {
    match outcome {
        Outcome::Decisive { winner: Color::White } => seq!['1', '-', '0'],
        Outcome::Decisive { winner: Color::Black } => seq!['0', '-', '1'],
        Outcome::Draw => seq!['1', '/', '2', '-', '1', '/', '2'],
    }
}

/// One move of a game.
#[derive(Debug, Clone, PartialEq, Eq)]
pub struct DbMove {
    /// Position of the move within its game, counted from 1.
    pub nr: i16,
    /// The move in UCI notation.
    pub uci: String,
    /// Resulting FEN state of the game after the move happened.
    pub fen: String,
}

/// The moves of one game carry the numbers 1, 2, 3, ... in order.
pub open spec fn contiguous(moves: Seq<DbMove>) -> bool {
    forall|i: int| 0 <= i < moves.len() ==> (#[trigger] moves[i]).nr == i + 1
}

} // verus!
