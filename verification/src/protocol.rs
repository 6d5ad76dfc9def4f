//! The text protocol spoken with the engine: the commands that are written
//! to it, and the reading of the lines that come back.

use crate::text::{decimal, has_prefix, render_decimal, second_token, take_second_token};
use vstd::prelude::*;

verus! {

/// A request to search a position to a depth. `response` names the reply
/// slot of the caller that waits for the answer.
#[derive(Debug, Clone, PartialEq, Eq)]
pub struct Analyze {
    pub fen: String,
    pub depth: usize,
    pub response: u64,
}

/// The engine's answer to an `Analyze`, with the request echoed back.
#[derive(Debug, Clone, PartialEq, Eq)]
pub struct BestMove {
    pub fen: String,
    pub best_move: String,
    pub depth: usize,
}

/// A request for the handshake. `response` names the reply slot of the
/// caller that waits for the acknowledgement.
#[derive(Debug)]
pub struct UciPayload {
    pub response: u64,
}

/// What can be sent to an engine session.
#[derive(Debug)]
pub enum StockfishCmd {
    Uci(UciPayload),
    Kill,
    Analyze(Analyze),
    BestMove(BestMove),
}

/// A command as a mathematical value.
pub enum CmdView {
    Uci { response: u64 },
    Kill,
    Analyze { fen: Seq<char>, depth: usize, response: u64 },
    BestMove,
}

impl View for StockfishCmd {
    type V = CmdView;

    open spec fn view(&self) -> CmdView {
        match self {
            StockfishCmd::Uci(p) => CmdView::Uci { response: p.response },
            StockfishCmd::Kill => CmdView::Kill,
            StockfishCmd::Analyze(a) => CmdView::Analyze {
                fen: a.fen@,
                depth: a.depth,
                response: a.response,
            },
            StockfishCmd::BestMove(_) => CmdView::BestMove,
        }
    }
}

/// The handshake command.
pub open spec fn handshake_line() -> Seq<char> {
    seq!['u', 'c', 'i', '\n']
}

/// The command that ends the engine.
pub open spec fn quit_line() -> Seq<char> {
    seq!['q', 'u', 'i', 't', '\n']
}

/// The command that sets the position to search.
pub open spec fn position_line(fen: Seq<char>) -> Seq<char> {
    seq!['p', 'o', 's', 'i', 't', 'i', 'o', 'n', ' ', 'f', 'e', 'n', ' '] + fen + seq!['\n']
}

/// The command that starts a search to a fixed depth.
pub open spec fn go_line(depth: usize) -> Seq<char> {
    seq!['g', 'o', ' ', 'd', 'e', 'p', 't', 'h', ' '] + decimal(depth as nat) + seq!['\n']
}

/// The sentinel that ends the handshake.
pub open spec fn ready_sentinel() -> Seq<char> {
    seq!['u', 'c', 'i', 'o', 'k']
}

/// The sentinel that ends a search.
pub open spec fn best_move_sentinel() -> Seq<char> {
    seq!['b', 'e', 's', 't', 'm', 'o', 'v', 'e']
}

/// The lines that a command puts on the engine's input, in order.
pub open spec fn lines_of(cmd: CmdView) -> Seq<Seq<char>> {
    match cmd {
        CmdView::Uci { .. } => seq![handshake_line()],
        CmdView::Kill => seq![quit_line()],
        CmdView::Analyze { fen, depth, .. } => seq![position_line(fen), go_line(depth)],
        CmdView::BestMove => Seq::<Seq<char>>::empty(),
    }
}

/// The texts of a list of strings.
pub open spec fn texts(lines: Seq<String>) -> Seq<Seq<char>> {
    Seq::new(lines.len(), |i: int| lines[i]@)
}

/// Writes the handshake command.
pub fn uci_command() -> (r: String)
    ensures
        r@ == handshake_line(),
{
    proof {
        reveal_strlit("uci\n");
    }
    let r = String::from_str("uci\n");
    assert(r@ =~= handshake_line());
    r
}

/// Writes the command that ends the engine.
pub fn quit_command() -> (r: String)
    ensures
        r@ == quit_line(),
{
    proof {
        reveal_strlit("quit\n");
    }
    let r = String::from_str("quit\n");
    assert(r@ =~= quit_line());
    r
}

/// Writes the command that sets the position to search.
pub fn position_command(fen: &str) -> (r: String)
    ensures
        r@ == position_line(fen@),
{
    proof {
        reveal_strlit("position fen ");
        reveal_strlit("\n");
    }
    let mut r = String::from_str("position fen ");
    r.append(fen);
    r.append("\n");
    assert(r@ =~= position_line(fen@));
    r
}

/// Writes the command that starts a search to `depth`.
pub fn go_command(depth: usize) -> (r: String)
    ensures
        r@ == go_line(depth),
{
    proof {
        reveal_strlit("go depth ");
        reveal_strlit("\n");
    }
    let mut r = String::from_str("go depth ");
    let number = render_decimal(depth);
    r.append(number.as_str());
    r.append("\n");
    assert(r@ =~= go_line(depth));
    r
}

/// Writes the lines of a command, in the order in which the engine must
/// see them.
pub fn command_lines(cmd: &StockfishCmd) -> (r: Vec<String>)
    ensures
        texts(r@) == lines_of(cmd@),
{
    let mut r: Vec<String> = Vec::new();
    match cmd {
        StockfishCmd::Uci(_) => {
            r.push(uci_command());
        },
        StockfishCmd::Kill => {
            r.push(quit_command());
        },
        StockfishCmd::Analyze(a) => {
            r.push(position_command(a.fen.as_str()));
            r.push(go_command(a.depth));
        },
        StockfishCmd::BestMove(_) => {},
    }
    assert(texts(r@) =~= lines_of(cmd@));
    r
}

/// Tells whether a line of engine output ends the handshake.
pub fn is_ready(line: &str) -> (r: bool)
    ensures
        r == ready_sentinel().is_prefix_of(line@),
{
    proof {
        reveal_strlit("uciok");
        assert("uciok"@ =~= ready_sentinel());
    }
    has_prefix(line, "uciok")
}

/// Tells whether a line of engine output ends a search.
pub fn is_best_move(line: &str) -> (r: bool)
    ensures
        r == best_move_sentinel().is_prefix_of(line@),
{
    proof {
        reveal_strlit("bestmove");
        assert("bestmove"@ =~= best_move_sentinel());
    }
    has_prefix(line, "bestmove")
}

/// The move that a line of engine output announces: the second word of a
/// line that starts with the search sentinel. `None` for every other line,
/// and for a sentinel line without a second word.
pub open spec fn announced_move(line: Seq<char>) -> Option<Seq<char>> {
    if best_move_sentinel().is_prefix_of(line) {
        second_token(line)
    } else {
        None
    }
}

/// Reads the move off a line of engine output.
pub fn parse_best_move(line: &str) -> (r: Option<String>)
    ensures
        r.is_some() == announced_move(line@).is_some(),
        r.is_some() ==> r.unwrap()@ == announced_move(line@).unwrap(),
{
    if is_best_move(line) {
        take_second_token(line)
    } else {
        None
    }
}

} // verus!
