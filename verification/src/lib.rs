//! Self-play game generation against a UCI engine: the engine session
//! protocol, the playout driver, the game recorder and PGN rendering.

pub mod oracle;
pub mod pgn;
pub mod playout;
pub mod protocol;
pub mod record;
pub mod session;
pub mod store;
pub mod text;
