//! Rendering of a game as PGN movetext.

use crate::record::{outcome_notation, Color, Outcome};
use crate::text::{decimal, render_decimal};
use vstd::prelude::*;

verus! {

/// A game in PGN: its result and its movetext.
#[derive(Debug)]
pub struct Pgn {
    pub result: String,
    pub pgn: String,
}

/// One full move of the movetext: its number, a dot, White's move and
/// Black's move, each followed by a space.
pub open spec fn fullmove_text(number: nat, white: Seq<char>, black: Seq<char>) -> Seq<char> {
    decimal(number) + seq!['.', ' '] + white + seq![' '] + black + seq![' ']
}

/// The movetext of the first `pairs` full moves of `moves`.
pub open spec fn movetext(moves: Seq<String>, pairs: nat) -> Seq<char>
    decreases pairs,
{
    if pairs == 0 {
        Seq::<char>::empty()
    } else {
        movetext(moves, (pairs - 1) as nat) + fullmove_text(
            pairs,
            moves[2 * (pairs - 1)]@,
            moves[2 * (pairs - 1) + 1]@,
        )
    }
}

/// The result of a game as PGN writes it: `1-0`, `0-1` or `1/2-1/2`.
pub fn result_text(result: Outcome) -> (r: String)
    ensures
        r@ == outcome_notation(result),
{
    proof {
        reveal_strlit("1-0");
        reveal_strlit("0-1");
        reveal_strlit("1/2-1/2");
    }
    let text = match result {
        Outcome::Decisive { winner: Color::White } => "1-0",
        Outcome::Decisive { winner: Color::Black } => "0-1",
        Outcome::Draw => "1/2-1/2",
    };
    assert(text@ =~= outcome_notation(result));
    String::from_str(text)
}

impl Pgn {
    /// Renders the full moves of a game, numbered from 1, followed by its
    /// result. A last move of White that Black did not answer is left out.
    pub fn with(moves: Vec<String>, result: Outcome) -> (r: Pgn)
        ensures
            r.result@ == outcome_notation(result),
            r.pgn@ == movetext(moves@, (moves@.len() / 2) as nat) + outcome_notation(result),
    {
        let mut pgn = String::new();
        let outcome_str = result_text(result);
        let pairs: usize = moves.len() / 2;
        let mut i: usize = 0;
        proof {
            reveal_strlit(". ");
            reveal_strlit(" ");
        }
        while i < pairs
            invariant
                i <= pairs,
                pairs == moves@.len() / 2,
                pgn@ == movetext(moves@, i as nat),
                ". "@ == seq!['.', ' '],
                " "@ == seq![' '],
            decreases pairs - i,
        {
            let number = render_decimal(i + 1);
            pgn.append(number.as_str());
            pgn.append(". ");
            pgn.append(moves[2 * i].as_str());
            pgn.append(" ");
            pgn.append(moves[2 * i + 1].as_str());
            pgn.append(" ");
            i += 1;
            assert(pgn@ =~= movetext(moves@, i as nat));
        }
        pgn.append(outcome_str.as_str());
        Pgn { result: outcome_str, pgn }
    }
}

} // verus!
