//! The engine session: one exchange with the engine at a time, and every
//! answer handed to the reply slot of the request that asked for it.
//!
//! The session is a state machine. Whoever owns the engine's streams feeds
//! it commands, the lines that the engine prints and the end of its output,
//! writes the lines that it hands back and delivers the replies.

use crate::protocol::{
    announced_move, best_move_sentinel, command_lines, go_line, is_best_move, is_ready, lines_of,
    position_line, ready_sentinel, texts, Analyze, BestMove, CmdView, StockfishCmd,
};
use crate::text::take_second_token;
use vstd::prelude::*;

verus! {

/// Why a request could not be answered.
#[derive(Clone, Copy, Debug, PartialEq, Eq, Structural)]
pub enum SessionError {
    /// The engine's streams are closed or cannot be written.
    Transport,
    /// The engine's output ended before the handshake was acknowledged, or
    /// the engine announced a search result without a move.
    Protocol,
    /// The engine's output ended while a search was under way.
    EngineExited,
}

/// Where a session stands in its exchange with the engine.
#[derive(Debug)]
pub enum Phase {
    /// No exchange is under way.
    Idle,
    /// The handshake was written; its acknowledgement is awaited.
    Handshake { response: u64 },
    /// A search was started; its result is awaited.
    Searching { request: Analyze },
    /// The session has ended.
    Closed,
}

/// A phase as a mathematical value.
pub enum PhaseView {
    Idle,
    Handshake { response: u64 },
    Searching { fen: Seq<char>, depth: usize, response: u64 },
    Closed,
}

impl View for Phase {
    type V = PhaseView;

    open spec fn view(&self) -> PhaseView {
        match self {
            Phase::Idle => PhaseView::Idle,
            Phase::Handshake { response } => PhaseView::Handshake { response: *response },
            Phase::Searching { request } => PhaseView::Searching {
                fen: request.fen@,
                depth: request.depth,
                response: request.response,
            },
            Phase::Closed => PhaseView::Closed,
        }
    }
}

/// What is owed to a caller after an event.
#[derive(Debug, PartialEq, Eq)]
pub enum Reply {
    /// Nothing yet.
    Pending,
    /// The handshake is acknowledged.
    Ready { response: u64 },
    /// The search has a result.
    Move { response: u64, best: BestMove },
    /// The request has failed.
    Failed { response: u64, error: SessionError },
}

/// A reply as a mathematical value.
pub enum ReplyView {
    Pending,
    Ready { response: u64 },
    Move { response: u64, fen: Seq<char>, best_move: Seq<char>, depth: usize },
    Failed { response: u64, error: SessionError },
}

impl View for Reply {
    type V = ReplyView;

    open spec fn view(&self) -> ReplyView {
        match self {
            Reply::Pending => ReplyView::Pending,
            Reply::Ready { response } => ReplyView::Ready { response: *response },
            Reply::Move { response, best } => ReplyView::Move {
                response: *response,
                fen: best.fen@,
                best_move: best.best_move@,
                depth: best.depth,
            },
            Reply::Failed { response, error } => ReplyView::Failed {
                response: *response,
                error: *error,
            },
        }
    }
}

/// Whether an exchange with the engine is under way.
pub open spec fn busy(phase: PhaseView) -> bool {
    phase is Handshake || phase is Searching
}

/// The phase after a command was taken up, for a session that is not busy.
pub open spec fn phase_after_command(phase: PhaseView, cmd: CmdView) -> PhaseView {
    match phase {
        PhaseView::Idle => match cmd {
            CmdView::Uci { response } => PhaseView::Handshake { response },
            CmdView::Kill => PhaseView::Closed,
            CmdView::Analyze { fen, depth, response } => PhaseView::Searching {
                fen,
                depth,
                response,
            },
            CmdView::BestMove => PhaseView::Idle,
        },
        _ => phase,
    }
}

/// The lines written to the engine when a command is taken up: those of
/// the command for an idle session, none for an ended one.
pub open spec fn written_for_command(phase: PhaseView, cmd: CmdView) -> Seq<Seq<char>> {
    if phase is Idle {
        lines_of(cmd)
    } else {
        Seq::<Seq<char>>::empty()
    }
}

/// The reply owed when a command is taken up: a request that reaches an
/// ended session fails at once.
pub open spec fn reply_to_command(phase: PhaseView, cmd: CmdView) -> ReplyView {
    match phase {
        PhaseView::Closed => match cmd {
            CmdView::Uci { response } => ReplyView::Failed {
                response,
                error: SessionError::Transport,
            },
            CmdView::Analyze { response, .. } => ReplyView::Failed {
                response,
                error: SessionError::Transport,
            },
            _ => ReplyView::Pending,
        },
        _ => ReplyView::Pending,
    }
}

/// The phase after, and the reply owed for, one line of engine output.
/// A line that is not the awaited sentinel changes nothing.
pub open spec fn after_line(phase: PhaseView, line: Seq<char>) -> (PhaseView, ReplyView) {
    match phase {
        PhaseView::Handshake { response } => if ready_sentinel().is_prefix_of(line) {
            (PhaseView::Idle, ReplyView::Ready { response })
        } else {
            (phase, ReplyView::Pending)
        },
        PhaseView::Searching { fen, depth, response } => if best_move_sentinel().is_prefix_of(
            line,
        ) {
            match announced_move(line) {
                Some(best_move) => (
                    PhaseView::Idle,
                    ReplyView::Move { response, fen, best_move, depth },
                ),
                None => (
                    PhaseView::Idle,
                    ReplyView::Failed { response, error: SessionError::Protocol },
                ),
            }
        } else {
            (phase, ReplyView::Pending)
        },
        _ => (phase, ReplyView::Pending),
    }
}

/// The reply owed when the engine's output ends.
pub open spec fn reply_to_stream_end(phase: PhaseView) -> ReplyView {
    match phase {
        PhaseView::Handshake { response } => ReplyView::Failed {
            response,
            error: SessionError::Protocol,
        },
        PhaseView::Searching { response, .. } => ReplyView::Failed {
            response,
            error: SessionError::EngineExited,
        },
        _ => ReplyView::Pending,
    }
}

/// The reply owed when the engine's streams fail.
pub open spec fn reply_to_transport_failure(phase: PhaseView) -> ReplyView {
    match phase {
        PhaseView::Handshake { response } => ReplyView::Failed {
            response,
            error: SessionError::Transport,
        },
        PhaseView::Searching { response, .. } => ReplyView::Failed {
            response,
            error: SessionError::Transport,
        },
        _ => ReplyView::Pending,
    }
}

/// The phase after, and the reply owed for, a run of lines of engine
/// output, read one by one until a reply is owed.
pub open spec fn after_lines(phase: PhaseView, lines: Seq<Seq<char>>) -> (PhaseView, ReplyView)
    decreases lines.len(),
{
    if lines.len() == 0 {
        (phase, ReplyView::Pending)
    } else {
        let step = after_line(phase, lines[0]);
        if step.1 is Pending {
            after_lines(step.0, lines.skip(1))
        } else {
            step
        }
    }
}

/// Something that happens to a session.
#[derive(Debug)]
pub enum Event {
    /// The next command of the queue is at hand.
    Command(StockfishCmd),
    /// The engine has printed a line.
    Line(String),
    /// The engine's output has ended.
    StreamEnd,
    /// The engine's streams have failed.
    TransportFailure,
}

/// An event as a mathematical value.
pub enum EventView {
    Command(CmdView),
    Line(Seq<char>),
    StreamEnd,
    TransportFailure,
}

impl View for Event {
    type V = EventView;

    open spec fn view(&self) -> EventView {
        match self {
            Event::Command(cmd) => EventView::Command(cmd@),
            Event::Line(line) => EventView::Line(line@),
            Event::StreamEnd => EventView::StreamEnd,
            Event::TransportFailure => EventView::TransportFailure,
        }
    }
}

/// Whether a session takes up a command: only while no exchange is under
/// way. Until then the command waits.
pub open spec fn takes_up(phase: PhaseView, event: EventView) -> bool {
    event is Command ==> !busy(phase)
}

/// The phase after an event.
pub open spec fn phase_after(phase: PhaseView, event: EventView) -> PhaseView {
    match event {
        EventView::Command(cmd) => phase_after_command(phase, cmd),
        EventView::Line(line) => after_line(phase, line).0,
        EventView::StreamEnd => PhaseView::Closed,
        EventView::TransportFailure => PhaseView::Closed,
    }
}

/// The lines written to the engine upon an event.
pub open spec fn written_for(phase: PhaseView, event: EventView) -> Seq<Seq<char>> {
    match event {
        EventView::Command(cmd) => written_for_command(phase, cmd),
        _ => Seq::<Seq<char>>::empty(),
    }
}

/// The reply owed upon an event.
pub open spec fn reply_for(phase: PhaseView, event: EventView) -> ReplyView {
    match event {
        EventView::Command(cmd) => reply_to_command(phase, cmd),
        EventView::Line(line) => after_line(phase, line).1,
        EventView::StreamEnd => reply_to_stream_end(phase),
        EventView::TransportFailure => reply_to_transport_failure(phase),
    }
}

/// Everything that a session writes to the engine in the course of a run
/// of events, in order.
pub open spec fn run_written(phase: PhaseView, events: Seq<EventView>) -> Seq<Seq<char>>
    decreases events.len(),
{
    if events.len() == 0 {
        Seq::<Seq<char>>::empty()
    } else {
        written_for(phase, events[0]) + run_written(
            phase_after(phase, events[0]),
            events.skip(1),
        )
    }
}

/// The commands that reach the engine in the course of a run of events:
/// those that an idle session takes up, in order.
pub open spec fn run_served(phase: PhaseView, events: Seq<EventView>) -> Seq<CmdView>
    decreases events.len(),
{
    if events.len() == 0 {
        Seq::<CmdView>::empty()
    } else {
        let first = match events[0] {
            EventView::Command(cmd) => if phase is Idle {
                seq![cmd]
            } else {
                Seq::<CmdView>::empty()
            },
            _ => Seq::<CmdView>::empty(),
        };
        first + run_served(phase_after(phase, events[0]), events.skip(1))
    }
}

/// The lines of a list of commands, each command's lines together, in the
/// order of the commands.
pub open spec fn transcript(cmds: Seq<CmdView>) -> Seq<Seq<char>>
    decreases cmds.len(),
{
    if cmds.len() == 0 {
        Seq::<Seq<char>>::empty()
    } else {
        lines_of(cmds[0]) + transcript(cmds.skip(1))
    }
}

fn nothing_written() -> (r: Vec<String>)
    ensures
        texts(r@) == Seq::<Seq<char>>::empty(),
{
    let r: Vec<String> = Vec::new();
    assert(texts(r@) =~= Seq::<Seq<char>>::empty());
    r
}

/// An engine session.
#[derive(Debug)]
pub struct Session {
    phase: Phase,
}

impl View for Session {
    type V = PhaseView;

    closed spec fn view(&self) -> PhaseView {
        self.phase@
    }
}

impl Session {
    /// A session with no exchange under way.
    pub fn new() -> (r: Session)
        ensures
            r@ == PhaseView::Idle,
    {
        Session { phase: Phase::Idle }
    }

    /// Whether an exchange with the engine is under way. While one is, no
    /// command can be taken up.
    pub fn is_busy(&self) -> (r: bool)
        ensures
            r == busy(self@),
    {
        match &self.phase {
            Phase::Handshake { .. } => true,
            Phase::Searching { .. } => true,
            _ => false,
        }
    }

    /// Whether the session has ended.
    pub fn is_closed(&self) -> (r: bool)
        ensures
            r == (self@ is Closed),
    {
        match &self.phase {
            Phase::Closed => true,
            _ => false,
        }
    }

    /// Takes up the next command of the queue. Returns the lines to write to
    /// the engine, all of them before anything else is written, and the
    /// reply that is owed at once, if any.
    pub fn on_command(&mut self, cmd: StockfishCmd) -> (r: (Vec<String>, Reply))
        requires
            !busy(old(self)@),
        ensures
            final(self)@ == phase_after_command(old(self)@, cmd@),
            texts(r.0@) == written_for_command(old(self)@, cmd@),
            r.1@ == reply_to_command(old(self)@, cmd@),
    {
        if self.is_closed() {
            let reply = match cmd {
                StockfishCmd::Uci(p) => Reply::Failed {
                    response: p.response,
                    error: SessionError::Transport,
                },
                StockfishCmd::Analyze(a) => Reply::Failed {
                    response: a.response,
                    error: SessionError::Transport,
                },
                _ => Reply::Pending,
            };
            let lines: Vec<String> = Vec::new();
            assert(texts(lines@) =~= Seq::<Seq<char>>::empty());
            return (lines, reply);
        }
        let lines = command_lines(&cmd);
        match cmd {
            StockfishCmd::Uci(p) => {
                self.phase = Phase::Handshake { response: p.response };
            },
            StockfishCmd::Kill => {
                self.phase = Phase::Closed;
            },
            StockfishCmd::Analyze(a) => {
                self.phase = Phase::Searching { request: a };
            },
            StockfishCmd::BestMove(_) => {},
        }
        (lines, Reply::Pending)
    }

    /// Takes one line of engine output.
    pub fn on_line(&mut self, line: &str) -> (r: Reply)
        ensures
            (final(self)@, r@) == after_line(old(self)@, line@),
    {
        let mut phase = Phase::Idle;
        std::mem::swap(&mut self.phase, &mut phase);
        match phase {
            Phase::Handshake { response } => {
                if is_ready(line) {
                    Reply::Ready { response }
                } else {
                    self.phase = Phase::Handshake { response };
                    Reply::Pending
                }
            },
            Phase::Searching { request } => {
                if is_best_move(line) {
                    match take_second_token(line) {
                        Some(best_move) => Reply::Move {
                            response: request.response,
                            best: BestMove { fen: request.fen, best_move, depth: request.depth },
                        },
                        None => Reply::Failed {
                            response: request.response,
                            error: SessionError::Protocol,
                        },
                    }
                } else {
                    self.phase = Phase::Searching { request };
                    Reply::Pending
                }
            },
            Phase::Idle => Reply::Pending,
            Phase::Closed => {
                self.phase = Phase::Closed;
                Reply::Pending
            },
        }
    }

    /// Takes the end of the engine's output. The session ends, and the
    /// request under way fails.
    pub fn on_stream_end(&mut self) -> (r: Reply)
        ensures
            final(self)@ == PhaseView::Closed,
            r@ == reply_to_stream_end(old(self)@),
    {
        let mut phase = Phase::Closed;
        std::mem::swap(&mut self.phase, &mut phase);
        match phase {
            Phase::Handshake { response } => Reply::Failed {
                response,
                error: SessionError::Protocol,
            },
            Phase::Searching { request } => Reply::Failed {
                response: request.response,
                error: SessionError::EngineExited,
            },
            _ => Reply::Pending,
        }
    }

    /// Takes an event, whichever it is. A command is taken only while no
    /// exchange is under way.
    pub fn handle(&mut self, event: Event) -> (r: (Vec<String>, Reply))
        requires
            takes_up(old(self)@, event@),
        ensures
            final(self)@ == phase_after(old(self)@, event@),
            texts(r.0@) == written_for(old(self)@, event@),
            r.1@ == reply_for(old(self)@, event@),
    {
        match event {
            Event::Command(cmd) => self.on_command(cmd),
            Event::Line(line) => {
                let reply = self.on_line(line.as_str());
                (self::nothing_written(), reply)
            },
            Event::StreamEnd => {
                let reply = self.on_stream_end();
                (self::nothing_written(), reply)
            },
            Event::TransportFailure => {
                let reply = self.on_transport_failure();
                (self::nothing_written(), reply)
            },
        }
    }

    /// Takes a failure of the engine's streams. The session ends, and the
    /// request under way fails.
    pub fn on_transport_failure(&mut self) -> (r: Reply)
        ensures
            final(self)@ == PhaseView::Closed,
            r@ == reply_to_transport_failure(old(self)@),
    {
        let mut phase = Phase::Closed;
        std::mem::swap(&mut self.phase, &mut phase);
        match phase {
            Phase::Handshake { response } => Reply::Failed {
                response,
                error: SessionError::Transport,
            },
            Phase::Searching { request } => Reply::Failed {
                response: request.response,
                error: SessionError::Transport,
            },
            _ => Reply::Pending,
        }
    }
}

/// Lines that are not the awaited sentinel are passed over without a trace:
/// after any run of them, the next line is taken exactly as if it had come
/// first.
pub proof fn lemma_unmatched_lines_change_nothing(
    phase: PhaseView,
    unmatched: Seq<Seq<char>>,
    line: Seq<char>,
)
    requires
        forall|i: int| 0 <= i < unmatched.len() ==> after_line(phase, #[trigger] unmatched[i]).1 is Pending,
    ensures
        forall|i: int| 0 <= i < unmatched.len() ==> after_line(phase, #[trigger] unmatched[i]).0 == phase,
        after_lines(phase, unmatched) == (phase, ReplyView::Pending),
        after_lines(phase, unmatched.push(line)) == after_line(phase, line),
    decreases unmatched.len(),
{
    if unmatched.len() == 0 {
        assert(unmatched.push(line).skip(1) =~= Seq::<Seq<char>>::empty());
        assert(unmatched.push(line)[0] == line);
        let step = after_line(phase, line);
        if step.1 is Pending {
            assert(after_lines(step.0, Seq::<Seq<char>>::empty()) == (step.0, ReplyView::Pending));
        }
    } else {
        let rest = unmatched.skip(1);
        assert(after_line(phase, unmatched[0]).1 is Pending);
        assert(after_line(phase, unmatched[0]).0 == phase);
        assert forall|i: int| 0 <= i < rest.len() implies after_line(
            phase,
            #[trigger] rest[i],
        ).1 is Pending by {
            assert(rest[i] == unmatched[i + 1]);
        }
        lemma_unmatched_lines_change_nothing(phase, rest, line);
        assert(unmatched.push(line).skip(1) =~= rest.push(line));
        assert(unmatched.push(line)[0] == unmatched[0]);
    }
}

/// Whatever happens to a session, and in whatever order, the engine sees
/// the lines of whole commands only: the lines of each command that was
/// taken up, together and in the order in which the commands were taken up,
/// and nothing in between.
pub proof fn lemma_run_writes_whole_commands(phase: PhaseView, events: Seq<EventView>)
    ensures
        run_written(phase, events) == transcript(run_served(phase, events)),
    decreases events.len(),
{
    if events.len() > 0 {
        let next = phase_after(phase, events[0]);
        let rest = events.skip(1);
        lemma_run_writes_whole_commands(next, rest);
        let served = run_served(next, rest);
        match events[0] {
            EventView::Command(cmd) => {
                if phase is Idle {
                    let all = seq![cmd] + served;
                    assert(all[0] == cmd);
                    assert(all.skip(1) =~= served);
                } else {
                    assert(Seq::<CmdView>::empty() + served =~= served);
                    assert(Seq::<Seq<char>>::empty() + transcript(served) =~= transcript(served));
                }
            },
            _ => {
                assert(Seq::<CmdView>::empty() + served =~= served);
                assert(Seq::<Seq<char>>::empty() + transcript(served) =~= transcript(served));
            },
        }
    }
}

/// Searches reach the engine as pairs: the line that sets the position of a
/// request is followed at once by the line that starts its search, and
/// nothing else is written.
pub proof fn lemma_search_pairs_adjacent(requests: Seq<CmdView>)
    requires
        forall|i: int| 0 <= i < requests.len() ==> (#[trigger] requests[i]) is Analyze,
    ensures
        transcript(requests).len() == 2 * requests.len(),
        forall|i: int|
            0 <= i < requests.len() ==> {
                &&& transcript(requests)[2 * i] == position_line(
                    (#[trigger] requests[i])->Analyze_fen,
                )
                &&& transcript(requests)[2 * i + 1] == go_line(requests[i]->Analyze_depth)
            },
    decreases requests.len(),
{
    if requests.len() > 0 {
        let rest = requests.skip(1);
        assert forall|i: int| 0 <= i < rest.len() implies (#[trigger] rest[i]) is Analyze by {
            assert(rest[i] == requests[i + 1]);
        }
        lemma_search_pairs_adjacent(rest);
        assert(requests[0] is Analyze);
        assert forall|i: int| 0 <= i < requests.len() implies {
            &&& transcript(requests)[2 * i] == position_line(
                (#[trigger] requests[i])->Analyze_fen,
            )
            &&& transcript(requests)[2 * i + 1] == go_line(requests[i]->Analyze_depth)
        } by {
            if i > 0 {
                assert(rest[i - 1] == requests[i]);
                assert(transcript(requests)[2 * i] == transcript(rest)[2 * (i - 1)]);
                assert(transcript(requests)[2 * i + 1] == transcript(rest)[2 * (i - 1) + 1]);
            }
        }
    }
}

/// Every command that a session serves in a run of events is one of the
/// commands of that run, so that a run whose commands are all searches
/// writes pairs only.
pub proof fn lemma_searches_are_served_as_pairs(phase: PhaseView, events: Seq<EventView>)
    requires
        forall|i: int|
            0 <= i < events.len() && (#[trigger] events[i]) is Command
                ==> events[i]->Command_0 is Analyze,
    ensures
        forall|k: int|
            0 <= k < run_served(phase, events).len() ==> (#[trigger] run_served(
                phase,
                events,
            )[k]) is Analyze,
        run_written(phase, events).len() == 2 * run_served(phase, events).len(),
        forall|k: int|
            0 <= k < run_served(phase, events).len() ==> {
                &&& run_written(phase, events)[2 * k] == position_line(
                    (#[trigger] run_served(phase, events)[k])->Analyze_fen,
                )
                &&& run_written(phase, events)[2 * k + 1] == go_line(
                    run_served(phase, events)[k]->Analyze_depth,
                )
            },
{
    lemma_served_are_commands(phase, events);
    lemma_run_writes_whole_commands(phase, events);
    lemma_search_pairs_adjacent(run_served(phase, events));
}

proof fn lemma_served_are_commands(phase: PhaseView, events: Seq<EventView>)
    requires
        forall|i: int|
            0 <= i < events.len() && (#[trigger] events[i]) is Command
                ==> events[i]->Command_0 is Analyze,
    ensures
        forall|k: int|
            0 <= k < run_served(phase, events).len() ==> (#[trigger] run_served(
                phase,
                events,
            )[k]) is Analyze,
    decreases events.len(),
{
    if events.len() > 0 {
        let rest = events.skip(1);
        assert forall|i: int| 0 <= i < rest.len() && (#[trigger] rest[i]) is Command implies rest[i]->Command_0 is Analyze by {
            assert(rest[i] == events[i + 1]);
        }
        lemma_served_are_commands(phase_after(phase, events[0]), rest);
    }
}

} // verus!
