//! The rules of chess, as `shakmaty` implements them. Positions and moves
//! cross this boundary as text: a position in FEN, a move in UCI notation.
//! Every function here is a thin call into that crate; its contract is taken
//! on trust.

use crate::record::{Color, Outcome};
use shakmaty::Position;
use vstd::prelude::*;

verus! {

/// The move that a text stands for in UCI syntax, written out again, as
/// `shakmaty` parses and prints it. `None` for a text that is no such move.
pub uninterp spec fn uci_normal(text: Seq<char>) -> Option<Seq<char>>;

/// The position that a move leads to, as `shakmaty` plays it. `None` where
/// the first text is no position, the second no move, or the move is not
/// legal in the position.
pub uninterp spec fn rules_after(fen: Seq<char>, uci: Seq<char>) -> Option<Seq<char>>;

/// Whether the game is over in a position, as `shakmaty` judges it. `None`
/// where the text is no position.
pub uninterp spec fn rules_over(fen: Seq<char>) -> Option<bool>;

/// The outcome of the game in a position, as `shakmaty` judges it. `None`
/// where the game is not over or the text is no position.
pub uninterp spec fn rules_outcome(fen: Seq<char>) -> Option<Outcome>;

/// The position from which every game starts.
pub open spec fn initial_fen() -> Seq<char> {
    "rnbqkbnr/pppppppp/8/8/8/8/PPPPPPPP/RNBQKBNR w KQkq - 0 1"@
}

/// The text of a string that may be missing.
pub open spec fn text_of(s: Option<String>) -> Option<Seq<char>> {
    match s {
        Some(s) => Some(s@),
        None => None,
    }
}

/// `shakmaty::Chess::new`, written by `shakmaty::fen::Fen::from_position`
/// and its `Display`: the initial position of a game of chess, in FEN.
#[verifier::external_body]
pub(crate) fn start_fen() -> (r: String)
    ensures
        r@ == initial_fen(),
{
    shakmaty::fen::Fen::from_position(shakmaty::Chess::new(), shakmaty::EnPassantMode::Legal)
        .to_string()
}

/// `shakmaty::uci::Uci::from_str` and the `Display` of its result: reads a
/// move in UCI syntax and writes it out again. The contract claims only that
/// the answer depends on the text alone.
#[verifier::external_body]
pub(crate) fn normalize_uci(text: &str) -> (r: Option<String>)
    ensures
        text_of(r) == uci_normal(text@),
{
    match text.parse::<shakmaty::uci::Uci>() {
        Ok(uci) => Some(uci.to_string()),
        Err(_) => None,
    }
}

/// `shakmaty::uci::Uci::to_move` and `shakmaty::Position::play`, on the
/// position that `shakmaty::fen::Fen` reads from the text: plays a move and
/// writes the position it leads to, with the en passant square given only
/// where a capture is legal. The contract claims only that the answer
/// depends on the two texts alone.
#[verifier::external_body]
pub(crate) fn fen_after(fen: &str, uci: &str) -> (r: Option<String>)
    ensures
        text_of(r) == rules_after(fen@, uci@),
{
    let setup = fen.parse::<shakmaty::fen::Fen>().ok()?;
    let pos: shakmaty::Chess = setup.into_position(shakmaty::CastlingMode::Standard).ok()?;
    let m = uci.parse::<shakmaty::uci::Uci>().ok()?.to_move(&pos).ok()?;
    let next = pos.play(&m).ok()?;
    Some(shakmaty::fen::Fen::from_position(next, shakmaty::EnPassantMode::Legal).to_string())
}

/// `shakmaty::Position::is_game_over`, on the position that
/// `shakmaty::fen::Fen` reads from the text: whether the game has ended by
/// checkmate, stalemate or insufficient material. The contract claims only
/// that the answer depends on the text alone.
#[verifier::external_body]
pub(crate) fn over_at(fen: &str) -> (r: Option<bool>)
    ensures
        r == rules_over(fen@),
{
    let setup = fen.parse::<shakmaty::fen::Fen>().ok()?;
    let pos: shakmaty::Chess = setup.into_position(shakmaty::CastlingMode::Standard).ok()?;
    Some(pos.is_game_over())
}

/// `shakmaty::Position::outcome`, on the position that
/// `shakmaty::fen::Fen` reads from the text, carried over variant by
/// variant. The contract claims that the answer depends on the text alone,
/// and that there is an outcome exactly where `is_game_over` holds of the
/// position: both go by the same three tests.
#[verifier::external_body]
pub(crate) fn outcome_at(fen: &str) -> (r: Option<Outcome>)
    ensures
        r == rules_outcome(fen@),
        r.is_some() == (rules_over(fen@) == Some(true)),
{
    let setup = fen.parse::<shakmaty::fen::Fen>().ok()?;
    let pos: shakmaty::Chess = setup.into_position(shakmaty::CastlingMode::Standard).ok()?;
    match pos.outcome()? {
        shakmaty::Outcome::Decisive { winner: shakmaty::Color::White } => Some(
            Outcome::Decisive { winner: Color::White },
        ),
        shakmaty::Outcome::Decisive { winner: shakmaty::Color::Black } => Some(
            Outcome::Decisive { winner: Color::Black },
        ),
        shakmaty::Outcome::Draw => Some(Outcome::Draw),
    }
}

} // verus!
