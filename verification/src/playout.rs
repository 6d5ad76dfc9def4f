//! The self-play driver: one game, from the initial position until the
//! rules end it or the move ceiling is reached.
//!
//! The driver decides; it does not wait. Its owner asks it for the next
//! request, has the engine answer, and hands the answer back.

use crate::oracle::{
    fen_after, initial_fen, normalize_uci, outcome_at, over_at, rules_after, rules_outcome,
    rules_over, start_fen, uci_normal,
};
use crate::protocol::Analyze;
use crate::record::{contiguous, DbMove, Outcome};
use vstd::prelude::*;

verus! {

/// The number of moves that a game never exceeds. A game that has this
/// many moves and is not over by the rules is given up.
pub const MOVE_CEILING: i16 = 500;

/// The depth to which every position is searched.
pub const SEARCH_DEPTH: usize = 1;

/// Why the engine's answer could not be played.
#[derive(Clone, Copy, Debug, PartialEq, Eq, Structural)]
pub enum PlayError {
    /// The answer is not a move in UCI syntax.
    MoveParse,
    /// The answer is a move, but not a legal one in the position.
    IllegalMove,
}

/// A finished game, ready to be stored in one piece.
#[derive(Debug)]
pub struct GameBatch {
    pub outcome: Option<Outcome>,
    pub moves: Vec<DbMove>,
}

/// The position in which move `i` of a game is played: the initial one for
/// the first move, else the one that the move before led to.
pub open spec fn position_before(moves: Seq<DbMove>, i: int) -> Seq<char> {
    if i <= 0 {
        initial_fen()
    } else {
        moves[i - 1].fen@
    }
}

/// The position that a game has reached.
pub open spec fn final_position(moves: Seq<DbMove>) -> Seq<char> {
    position_before(moves, moves.len() as int)
}

/// Every move of the game is legal where it is played, and is recorded with
/// the position that the rules say it leads to.
pub open spec fn lawful(moves: Seq<DbMove>) -> bool {
    forall|i: int|
        0 <= i < moves.len() ==> rules_after(position_before(moves, i), (#[trigger] moves[i]).uci@)
            == Some(moves[i].fen@)
}

/// The position reached by playing the moves, one after the other, from
/// `from`, going by the moves alone. `None` where one of them is not legal.
pub open spec fn replay(from: Seq<char>, moves: Seq<DbMove>) -> Option<Seq<char>>
    decreases moves.len(),
{
    if moves.len() == 0 {
        Some(from)
    } else {
        match replay(from, moves.drop_last()) {
            Some(fen) => rules_after(fen, moves.last().uci@),
            None => None,
        }
    }
}

/// Whether the rules have ended a game in a position, given their answer
/// for it. A position that the rules cannot read has not ended by them; no
/// move is legal in it.
pub open spec fn ended(over: Option<bool>) -> bool {
    over == Some(true)
}

/// Whether a game goes on: the rules have not ended it, and fewer moves
/// than the ceiling were played. `nr` is the number of the next move, one
/// more than the moves played.
pub open spec fn goes_on(finished: bool, nr: int) -> bool {
    !finished && nr <= MOVE_CEILING
}

/// Decides whether a game has ended, from the rules' answer.
pub fn has_ended(over: Option<bool>) -> (r: bool)
    ensures
        r == ended(over),
{
    match over {
        Some(over) => over,
        None => false,
    }
}

/// Decides whether a game goes on.
pub fn awaits_move(finished: bool, nr: i16) -> (r: bool)
    ensures
        r == goes_on(finished, nr as int),
{
    !finished && nr <= MOVE_CEILING
}

/// Decides what an answer of the engine comes to, from what the rules made
/// of it: `normal` is the answer read as a move, `next` the position that
/// the move leads to. An answer that is no move is a `MoveParse` error; a
/// move that leads nowhere is an `IllegalMove` error; every other is played,
/// and gives the move and the position to record.
pub fn judge(normal: Option<String>, next: Option<String>) -> (r: Result<
    (String, String),
    PlayError,
>)
    ensures
        match r {
            Ok(played) => normal == Some(played.0) && next == Some(played.1),
            Err(PlayError::MoveParse) => normal.is_none(),
            Err(PlayError::IllegalMove) => normal.is_some() && next.is_none(),
        },
{
    match normal {
        None => Err(PlayError::MoveParse),
        Some(uci) => match next {
            None => Err(PlayError::IllegalMove),
            Some(fen) => Ok((uci, fen)),
        },
    }
}

/// Decides what becomes of a game that no longer goes on: one that the
/// rules have ended is handed on with its outcome and all its moves, one
/// that only the ceiling has stopped is given up.
pub fn settle(finished: bool, outcome: Option<Outcome>, moves: Vec<DbMove>) -> (r: Option<
    GameBatch,
>)
    ensures
        r.is_none() == !finished,
        r.is_some() ==> r.unwrap().outcome == outcome && r.unwrap().moves == moves,
{
    if finished {
        Some(GameBatch { outcome, moves })
    } else {
        None
    }
}

/// A game in progress.
#[derive(Debug)]
pub struct Playout {
    notation: String,
    finished: bool,
    moves: Vec<DbMove>,
    nr: i16,
}

/// A game in progress as a mathematical value.
pub struct PlayoutView {
    /// The current position, in FEN.
    pub notation: Seq<char>,
    /// Whether the rules have ended the game.
    pub finished: bool,
    /// The moves played so far.
    pub moves: Seq<DbMove>,
    /// The number of the next move.
    pub nr: int,
}

impl View for Playout {
    type V = PlayoutView;

    closed spec fn view(&self) -> PlayoutView {
        PlayoutView {
            notation: self.notation@,
            finished: self.finished,
            moves: self.moves@,
            nr: self.nr as int,
        }
    }
}

impl Playout {
    /// The moves are numbered from 1 without a gap, there are no more of
    /// them than the ceiling allows, and the counter is one ahead of them;
    /// every move is lawful; the current position is the one that the game
    /// has reached, and the game counts as finished exactly where the rules
    /// end it there.
    pub open spec fn wf(&self) -> bool {
        &&& 1 <= self@.nr <= MOVE_CEILING + 1
        &&& self@.moves.len() == self@.nr - 1
        &&& contiguous(self@.moves)
        &&& lawful(self@.moves)
        &&& self@.notation == final_position(self@.moves)
        &&& self@.finished == ended(rules_over(self@.notation))
    }

    /// A game at the initial position, with no move played.
    pub fn new() -> (r: Playout)
        ensures
            r.wf(),
            r@.nr == 1,
            r@.moves.len() == 0,
            r@.notation == initial_fen(),
    {
        let notation = start_fen();
        let finished = has_ended(over_at(notation.as_str()));
        Playout { notation, finished, moves: Vec::new(), nr: 1 }
    }

    /// The number of the next move.
    pub fn nr(&self) -> (r: i16)
        ensures
            r == self@.nr,
    {
        self.nr
    }

    /// Whether the rules have ended the game.
    pub fn is_finished(&self) -> (r: bool)
        ensures
            r == self@.finished,
    {
        self.finished
    }

    /// The current position, in FEN.
    pub fn fen(&self) -> (r: &str)
        ensures
            r@ == self@.notation,
    {
        self.notation.as_str()
    }

    /// The moves played so far.
    pub fn moves(&self) -> (r: &Vec<DbMove>)
        ensures
            r@ == self@.moves,
    {
        &self.moves
    }

    /// The request to put to the engine next: the current position, to the
    /// fixed depth, answered to `response`. `None` once the game no longer
    /// goes on.
    pub fn next_request(&self, response: u64) -> (r: Option<Analyze>)
        ensures
            r.is_some() == goes_on(self@.finished, self@.nr),
            r.is_some() ==> {
                &&& r.unwrap().fen@ == self@.notation
                &&& r.unwrap().depth == SEARCH_DEPTH
                &&& r.unwrap().response == response
            },
    {
        if awaits_move(self.finished, self.nr) {
            Some(Analyze { fen: self.notation.clone(), depth: SEARCH_DEPTH, response })
        } else {
            None
        }
    }

    /// Plays the engine's answer in a game that goes on. An answer that is
    /// no move in UCI syntax fails as `MoveParse`, a move that the rules do
    /// not allow in the current position as `IllegalMove`, and either leaves
    /// the game as it was. Every other answer makes the game one move
    /// longer: the new move carries the old counter, the answer as the rules
    /// write it and the position it leads to, which is the current one from
    /// now on.
    pub fn play(&mut self, best_move: &str) -> (r: Result<(), PlayError>)
        requires
            old(self).wf(),
            goes_on(old(self)@.finished, old(self)@.nr),
        ensures
            final(self).wf(),
            match r {
                Ok(_) => {
                    &&& uci_normal(best_move@).is_some()
                    &&& rules_after(old(self)@.notation, uci_normal(best_move@).unwrap()).is_some()
                    &&& final(self)@.nr == old(self)@.nr + 1
                    &&& final(self)@.moves.len() == old(self)@.moves.len() + 1
                    &&& final(self)@.moves.drop_last() == old(self)@.moves
                    &&& final(self)@.moves.last().nr == old(self)@.nr
                    &&& final(self)@.moves.last().uci@ == uci_normal(best_move@).unwrap()
                    &&& final(self)@.moves.last().fen@ == rules_after(
                        old(self)@.notation,
                        uci_normal(best_move@).unwrap(),
                    ).unwrap()
                },
                Err(PlayError::MoveParse) => {
                    &&& uci_normal(best_move@).is_none()
                    &&& final(self)@ == old(self)@
                },
                Err(PlayError::IllegalMove) => {
                    &&& uci_normal(best_move@).is_some()
                    &&& rules_after(old(self)@.notation, uci_normal(best_move@).unwrap()).is_none()
                    &&& final(self)@ == old(self)@
                },
            },
    {
        let normal = normalize_uci(best_move);
        let next = match &normal {
            Some(uci) => fen_after(self.notation.as_str(), uci.as_str()),
            None => None,
        };
        match judge(normal, next) {
            Err(e) => Err(e),
            Ok((uci, fen)) => {
                let finished = has_ended(over_at(fen.as_str()));
                let ghost before = self.moves@;
                self.moves.push(DbMove { nr: self.nr, uci, fen: fen.clone() });
                self.notation = fen;
                self.finished = finished;
                self.nr = self.nr + 1;
                proof {
                    let after = self.moves@;
                    assert(after.drop_last() =~= before);
                    assert forall|i: int| 0 <= i < after.len() implies rules_after(
                        position_before(after, i),
                        (#[trigger] after[i]).uci@,
                    ) == Some(after[i].fen@) by {
                        if i < before.len() {
                            assert(after[i] == before[i]);
                            assert(position_before(after, i) == position_before(before, i));
                        }
                    }
                    assert forall|i: int| 0 <= i < after.len() implies (#[trigger] after[i]).nr
                        == i + 1 by {
                        if i < before.len() {
                            assert(after[i] == before[i]);
                        }
                    }
                }
                Ok(())
            },
        }
    }

    /// Ends a game that no longer goes on. One that the rules have ended is
    /// handed on with all its moves, numbered from 1, and with the outcome
    /// that the rules give the position that its moves, replayed from the
    /// initial position, lead to. One that the rules have not ended, and
    /// that the ceiling has stopped, is given up.
    pub fn conclude(self) -> (r: Option<GameBatch>)
        requires
            self.wf(),
            !goes_on(self@.finished, self@.nr),
        ensures
            r.is_none() == !self@.finished,
            r.is_none() ==> self@.moves.len() == MOVE_CEILING,
            r.is_some() ==> {
                &&& r.unwrap().moves@ == self@.moves
                &&& r.unwrap().moves@.len() == self@.nr - 1
                &&& contiguous(r.unwrap().moves@)
                &&& lawful(r.unwrap().moves@)
                &&& replay(initial_fen(), r.unwrap().moves@) == Some(self@.notation)
                &&& rules_over(self@.notation) == Some(true)
                &&& r.unwrap().outcome.is_some()
                &&& r.unwrap().outcome == rules_outcome(self@.notation)
            },
    {
        proof {
            lemma_replay_reaches_final(self.moves@);
        }
        let outcome = outcome_at(self.notation.as_str());
        settle(self.finished, outcome, self.moves)
    }
}

/// The moves of a lawful game, replayed from the initial position by the
/// rules, lead to the position that the game has recorded last.
pub proof fn lemma_replay_reaches_final(moves: Seq<DbMove>)
    requires
        lawful(moves),
    ensures
        replay(initial_fen(), moves) == Some(final_position(moves)),
    decreases moves.len(),
{
    if moves.len() > 0 {
        let front = moves.drop_last();
        assert forall|i: int| 0 <= i < front.len() implies rules_after(
            position_before(front, i),
            (#[trigger] front[i]).uci@,
        ) == Some(front[i].fen@) by {
            assert(front[i] == moves[i]);
            assert(position_before(front, i) == position_before(moves, i));
        }
        lemma_replay_reaches_final(front);
        assert(final_position(front) == position_before(moves, moves.len() - 1));
        assert(moves.last() == moves[moves.len() - 1]);
    }
}

} // verus!
