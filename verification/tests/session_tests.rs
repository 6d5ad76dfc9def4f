use gamegen::protocol::{
    command_lines, go_command, is_best_move, is_ready, parse_best_move, position_command,
    quit_command, uci_command, Analyze, BestMove, StockfishCmd, UciPayload,
};
use gamegen::session::{Event, Reply, Session, SessionError};

const START: &str = "rnbqkbnr/pppppppp/8/8/8/8/PPPPPPPP/RNBQKBNR w KQkq - 0 1";

fn analyze(fen: &str, depth: usize, response: u64) -> StockfishCmd {
    StockfishCmd::Analyze(Analyze { fen: fen.to_string(), depth, response })
}

#[test]
fn commands_are_written_as_the_engine_expects() {
    assert_eq!(uci_command(), "uci\n");
    assert_eq!(quit_command(), "quit\n");
    assert_eq!(position_command(START), format!("position fen {}\n", START));
    assert_eq!(go_command(1), "go depth 1\n");
    assert_eq!(go_command(0), "go depth 0\n");
    assert_eq!(go_command(12), "go depth 12\n");
    assert_eq!(go_command(305), "go depth 305\n");
}

#[test]
fn command_lines_of_each_command() {
    assert_eq!(command_lines(&StockfishCmd::Uci(UciPayload { response: 1 })), vec!["uci\n"]);
    assert_eq!(command_lines(&StockfishCmd::Kill), vec!["quit\n"]);
    assert_eq!(
        command_lines(&analyze("8/8/8/8/8/8/8/K1k5 w - - 0 1", 7, 3)),
        vec!["position fen 8/8/8/8/8/8/8/K1k5 w - - 0 1\n", "go depth 7\n"]
    );
    let echoed = StockfishCmd::BestMove(BestMove {
        fen: START.to_string(),
        best_move: "e2e4".to_string(),
        depth: 1,
    });
    assert!(command_lines(&echoed).is_empty());
}

#[test]
fn sentinels_are_matched_by_prefix() {
    assert!(is_ready("uciok"));
    assert!(is_ready("uciok and more"));
    assert!(!is_ready("id name X"));
    assert!(!is_ready("uci"));
    assert!(!is_ready(" uciok"));
    assert!(!is_ready(""));
    assert!(is_best_move("bestmove e2e4"));
    assert!(is_best_move("bestmove"));
    assert!(!is_best_move("info depth 1 bestmove"));
    assert!(!is_best_move("bestmov"));
}

#[test]
fn best_move_is_the_second_word() {
    assert_eq!(parse_best_move("bestmove e2e4 ponder e7e5"), Some("e2e4".to_string()));
    assert_eq!(parse_best_move("bestmove e7e8q"), Some("e7e8q".to_string()));
    assert_eq!(parse_best_move("bestmove (none)"), Some("(none)".to_string()));
    assert_eq!(parse_best_move("bestmove   a2a3  "), Some("a2a3".to_string()));
    assert_eq!(parse_best_move("bestmove e2e4\r"), Some("e2e4".to_string()));
    assert_eq!(parse_best_move("bestmove\te2e4\tponder e7e5"), Some("e2e4".to_string()));
    assert_eq!(parse_best_move("bestmove\r"), None);
    assert_eq!(parse_best_move("bestmove"), None);
    assert_eq!(parse_best_move("bestmove   "), None);
    assert_eq!(parse_best_move("info depth 1 score cp 20"), None);
    assert_eq!(parse_best_move(""), None);
}

#[test]
fn initialize_succeeds_after_the_ready_sentinel() {
    let mut session = Session::new();
    assert!(!session.is_busy());
    let (lines, reply) = session.on_command(StockfishCmd::Uci(UciPayload { response: 5 }));
    assert_eq!(lines, vec!["uci\n"]);
    assert_eq!(reply, Reply::Pending);
    assert!(session.is_busy());
    assert_eq!(session.on_line("id name X"), Reply::Pending);
    assert_eq!(session.on_line("option name Hash type spin"), Reply::Pending);
    assert!(session.is_busy());
    assert_eq!(session.on_line("uciok"), Reply::Ready { response: 5 });
    assert!(!session.is_busy());
    assert!(!session.is_closed());
}

#[test]
fn analyze_returns_the_announced_move() {
    let mut session = Session::new();
    let (lines, reply) = session.on_command(analyze(START, 1, 9));
    assert_eq!(lines, vec![format!("position fen {}\n", START), "go depth 1\n".to_string()]);
    assert_eq!(reply, Reply::Pending);
    assert_eq!(session.on_line("info depth 1 seldepth 1 score cp 30"), Reply::Pending);
    let reply = session.on_line("bestmove e2e4 ponder e7e5");
    assert_eq!(
        reply,
        Reply::Move {
            response: 9,
            best: BestMove {
                fen: START.to_string(),
                best_move: "e2e4".to_string(),
                depth: 1
            }
        }
    );
    assert!(!session.is_busy());
}

#[test]
fn analyze_fails_when_the_engine_exits() {
    let mut session = Session::new();
    let _ = session.on_command(analyze(START, 1, 4));
    assert_eq!(session.on_line("info depth 1"), Reply::Pending);
    assert_eq!(
        session.on_stream_end(),
        Reply::Failed { response: 4, error: SessionError::EngineExited }
    );
    assert!(session.is_closed());
    assert!(!session.is_busy());
}

#[test]
fn initialize_fails_when_the_engine_exits() {
    let mut session = Session::new();
    let _ = session.on_command(StockfishCmd::Uci(UciPayload { response: 2 }));
    assert_eq!(
        session.on_stream_end(),
        Reply::Failed { response: 2, error: SessionError::Protocol }
    );
    assert!(session.is_closed());
}

#[test]
fn best_move_line_without_a_move_is_a_protocol_error() {
    let mut session = Session::new();
    let _ = session.on_command(analyze(START, 1, 8));
    assert_eq!(
        session.on_line("bestmove"),
        Reply::Failed { response: 8, error: SessionError::Protocol }
    );
    assert!(!session.is_busy());
    assert!(!session.is_closed());
}

#[test]
fn transport_failure_fails_the_request_under_way_and_those_that_follow() {
    let mut session = Session::new();
    let _ = session.on_command(analyze(START, 1, 11));
    assert_eq!(
        session.on_transport_failure(),
        Reply::Failed { response: 11, error: SessionError::Transport }
    );
    assert!(session.is_closed());
    let (lines, reply) = session.on_command(analyze(START, 1, 12));
    assert!(lines.is_empty());
    assert_eq!(reply, Reply::Failed { response: 12, error: SessionError::Transport });
    let (lines, reply) = session.on_command(StockfishCmd::Uci(UciPayload { response: 13 }));
    assert!(lines.is_empty());
    assert_eq!(reply, Reply::Failed { response: 13, error: SessionError::Transport });
    let (lines, reply) = session.on_command(StockfishCmd::Kill);
    assert!(lines.is_empty());
    assert_eq!(reply, Reply::Pending);
}

#[test]
fn idle_session_ignores_lines_and_stream_end_owes_nothing() {
    let mut session = Session::new();
    assert_eq!(session.on_line("bestmove e2e4"), Reply::Pending);
    assert_eq!(session.on_line("uciok"), Reply::Pending);
    assert!(!session.is_busy());
    assert_eq!(session.on_stream_end(), Reply::Pending);
    assert!(session.is_closed());
    assert_eq!(session.on_line("uciok"), Reply::Pending);
    assert!(session.is_closed());
}

#[test]
fn terminate_writes_quit_and_ends_the_session() {
    let mut session = Session::new();
    let (lines, reply) = session.on_command(StockfishCmd::Kill);
    assert_eq!(lines, vec!["quit\n"]);
    assert_eq!(reply, Reply::Pending);
    assert!(session.is_closed());
    assert!(!session.is_busy());
}

#[test]
fn echoed_best_move_command_is_ignored() {
    let mut session = Session::new();
    let echoed = StockfishCmd::BestMove(BestMove {
        fen: START.to_string(),
        best_move: "e2e4".to_string(),
        depth: 1,
    });
    let (lines, reply) = session.on_command(echoed);
    assert!(lines.is_empty());
    assert_eq!(reply, Reply::Pending);
    assert!(!session.is_busy());
    assert!(!session.is_closed());
}

#[test]
fn searches_reach_the_engine_as_adjacent_pairs() {
    let fens = [START, "8/8/8/8/8/8/8/K1k5 w - - 0 1", "8/8/8/8/8/8/8/K1k4R b - - 3 9"];
    let mut session = Session::new();
    let mut written: Vec<String> = Vec::new();
    for (i, fen) in fens.iter().enumerate() {
        assert!(!session.is_busy());
        let (lines, _) = session.on_command(analyze(fen, i + 1, i as u64));
        written.extend(lines);
        assert!(session.is_busy());
        assert_eq!(session.on_line("info string thinking"), Reply::Pending);
        assert!(matches!(session.on_line("bestmove a1a2"), Reply::Move { .. }));
    }
    assert_eq!(written.len(), 6);
    for (i, fen) in fens.iter().enumerate() {
        assert_eq!(written[2 * i], format!("position fen {}\n", fen));
        assert_eq!(written[2 * i + 1], format!("go depth {}\n", i + 1));
    }
}

#[test]
fn unmatched_lines_do_not_swallow_the_matching_line() {
    let mut noisy = Session::new();
    let _ = noisy.on_command(analyze(START, 3, 21));
    for line in ["", "info depth 1", "uciok", "best move e2e4", "readyok", " bestmove a2a3"] {
        assert_eq!(noisy.on_line(line), Reply::Pending);
        assert!(noisy.is_busy());
    }
    let mut quiet = Session::new();
    let _ = quiet.on_command(analyze(START, 3, 21));
    let expected = quiet.on_line("bestmove d2d4 ponder d7d5");
    assert_eq!(noisy.on_line("bestmove d2d4 ponder d7d5"), expected);
    assert_eq!(
        expected,
        Reply::Move {
            response: 21,
            best: BestMove {
                fen: START.to_string(),
                best_move: "d2d4".to_string(),
                depth: 3
            }
        }
    );
}

#[test]
fn handshake_ignores_the_search_sentinel() {
    let mut session = Session::new();
    let _ = session.on_command(StockfishCmd::Uci(UciPayload { response: 1 }));
    assert_eq!(session.on_line("bestmove e2e4"), Reply::Pending);
    assert!(session.is_busy());
    assert_eq!(session.on_line("uciok"), Reply::Ready { response: 1 });
}

#[test]
fn events_are_handled_like_their_parts() {
    let mut session = Session::new();
    let (lines, reply) = session.handle(Event::Command(analyze(START, 2, 30)));
    assert_eq!(lines, vec![format!("position fen {}\n", START), "go depth 2\n".to_string()]);
    assert_eq!(reply, Reply::Pending);
    let (lines, reply) = session.handle(Event::Line("info depth 2".to_string()));
    assert!(lines.is_empty());
    assert_eq!(reply, Reply::Pending);
    let (lines, reply) = session.handle(Event::Line("bestmove g1f3".to_string()));
    assert!(lines.is_empty());
    assert_eq!(
        reply,
        Reply::Move {
            response: 30,
            best: BestMove {
                fen: START.to_string(),
                best_move: "g1f3".to_string(),
                depth: 2
            }
        }
    );
    let (lines, reply) = session.handle(Event::Command(StockfishCmd::Uci(UciPayload {
        response: 31,
    })));
    assert_eq!(lines, vec!["uci\n"]);
    assert_eq!(reply, Reply::Pending);
    let (lines, reply) = session.handle(Event::StreamEnd);
    assert!(lines.is_empty());
    assert_eq!(reply, Reply::Failed { response: 31, error: SessionError::Protocol });
    assert!(session.is_closed());
    let (lines, reply) = session.handle(Event::TransportFailure);
    assert!(lines.is_empty());
    assert_eq!(reply, Reply::Pending);
    assert!(session.is_closed());
}

#[test]
fn a_run_of_events_writes_whole_commands_only() {
    let mut session = Session::new();
    let mut written: Vec<String> = Vec::new();
    let mut served: Vec<(String, usize)> = Vec::new();
    let mut waiting = vec![
        ("8/8/8/8/8/8/8/K1k5 w - - 0 1", 1usize),
        (START, 4),
        ("8/8/8/8/8/8/8/K1k4R b - - 3 9", 12),
    ];
    let output = ["info a", "bestmove a1a2", "noise", "info b", "bestmove", "bestmove h1h2 ponder c1c2"];
    let mut next_line = 0;
    let mut ticket = 0;
    while !waiting.is_empty() || session.is_busy() {
        if session.is_busy() {
            let _ = session.handle(Event::Line(output[next_line].to_string()));
            next_line += 1;
        } else {
            let (fen, depth) = waiting.remove(0);
            let (lines, _) = session.handle(Event::Command(analyze(fen, depth, ticket)));
            ticket += 1;
            served.push((fen.to_string(), depth));
            written.extend(lines);
        }
    }
    assert_eq!(served.len(), 3);
    assert_eq!(written.len(), 6);
    for (i, (fen, depth)) in served.iter().enumerate() {
        assert_eq!(written[2 * i], format!("position fen {}\n", fen));
        assert_eq!(written[2 * i + 1], format!("go depth {}\n", depth));
    }
}

#[test]
fn a_carriage_return_does_not_spoil_the_move() {
    let mut session = Session::new();
    let _ = session.on_command(analyze(START, 1, 40));
    assert_eq!(
        session.on_line("bestmove e2e4\r"),
        Reply::Move {
            response: 40,
            best: BestMove {
                fen: START.to_string(),
                best_move: "e2e4".to_string(),
                depth: 1
            }
        }
    );
    let _ = session.on_command(analyze(START, 1, 41));
    assert_eq!(
        session.on_line("bestmove\r"),
        Reply::Failed { response: 41, error: SessionError::Protocol }
    );
}
