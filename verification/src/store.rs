//! What is handed to the store: the winner of a game as a number, and the
//! moves of a game as columns.

use crate::record::{Color, DbMove, Outcome};
use vstd::prelude::*;

verus! {

/// The winner as the store knows it: 1 for White, -1 for Black, 0 for a
/// draw.
pub open spec fn winner_value(outcome: Outcome) -> int {
    match outcome {
        Outcome::Draw => 0,
        Outcome::Decisive { winner: Color::White } => 1,
        Outcome::Decisive { winner: Color::Black } => -1,
    }
}

/// The winner of an outcome as a number.
pub fn winner_code(outcome: Outcome) -> (r: i32)
    ensures
        r == winner_value(outcome),
{
    match outcome {
        Outcome::Draw => 0,
        Outcome::Decisive { winner } => match winner {
            Color::White => 1,
            Color::Black => -1,
        },
    }
}

/// The winner to store with a new game: none for a game without outcome.
pub fn new_game_winner(outcome: Option<Outcome>) -> (r: Option<i32>)
    ensures
        r.is_some() == outcome.is_some(),
        r.is_some() ==> r.unwrap() == winner_value(outcome.unwrap()),
{
    match outcome {
        Some(outcome) => Some(winner_code(outcome)),
        None => None,
    }
}

/// A game without outcome has no winner to set.
#[derive(Clone, Copy, Debug, PartialEq, Eq, Structural)]
pub struct NoWinner;

impl NoWinner {
    /// The message of the error.
    pub fn message(&self) -> (r: String)
        ensures
            r@ == "No winner yet?"@,
    {
        String::from_str("No winner yet?")
    }
}

/// The winner to set on a stored game, which must have an outcome.
pub fn winner_to_set(outcome: Option<Outcome>) -> (r: Result<i32, NoWinner>)
    ensures
        r.is_ok() == outcome.is_some(),
        r.is_ok() ==> r.unwrap() == winner_value(outcome.unwrap()),
{
    match outcome {
        Some(outcome) => Ok(winner_code(outcome)),
        None => Err(NoWinner),
    }
}

/// The moves of one game, column by column.
#[derive(Debug)]
pub struct MoveColumns {
    pub nr: Vec<i16>,
    pub uci: Vec<String>,
    pub game_id: Vec<u128>,
    pub fen: Vec<String>,
}

/// The columns hold, row by row, the moves in their order, each with the
/// game's id.
pub open spec fn columns_of(columns: MoveColumns, game_id: u128, moves: Seq<DbMove>) -> bool {
    &&& columns.nr@.len() == moves.len()
    &&& columns.uci@.len() == moves.len()
    &&& columns.game_id@.len() == moves.len()
    &&& columns.fen@.len() == moves.len()
    &&& forall|i: int|
        0 <= i < moves.len() ==> {
            &&& columns.nr@[i] == (#[trigger] moves[i]).nr
            &&& columns.uci@[i]@ == moves[i].uci@
            &&& columns.game_id@[i] == game_id
            &&& columns.fen@[i]@ == moves[i].fen@
        }
}

/// Lays the moves of a game out in columns.
pub fn move_columns(game_id: u128, moves: &Vec<DbMove>) -> (r: MoveColumns)
    ensures
        columns_of(r, game_id, moves@),
{
    let mut nr: Vec<i16> = Vec::new();
    let mut uci: Vec<String> = Vec::new();
    let mut game: Vec<u128> = Vec::new();
    let mut fen: Vec<String> = Vec::new();
    let mut i: usize = 0;
    while i < moves.len()
        invariant
            i <= moves@.len(),
            nr@.len() == i,
            uci@.len() == i,
            game@.len() == i,
            fen@.len() == i,
            forall|k: int|
                0 <= k < i ==> {
                    &&& nr@[k] == (#[trigger] moves@[k]).nr
                    &&& uci@[k]@ == moves@[k].uci@
                    &&& game@[k] == game_id
                    &&& fen@[k]@ == moves@[k].fen@
                },
        decreases moves@.len() - i,
    {
        nr.push(moves[i].nr);
        uci.push(moves[i].uci.clone());
        game.push(game_id);
        fen.push(moves[i].fen.clone());
        i += 1;
    }
    MoveColumns { nr, uci, game_id: game, fen }
}

} // verus!
