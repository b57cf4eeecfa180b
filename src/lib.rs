//! Command front end of a UCI chess engine: session state machine, `go`
//! directive parsing, clock-based time allocation and castling notation.
pub mod castling;
pub mod chess;
pub mod clock;
pub mod directive;
pub mod laws;
pub mod numbers;
pub mod session;
pub mod words;

pub use clock::time_for_move;
pub use directive::{go, SearchType};
pub use castling::{check_castling_move, reverse_castling_move};
pub use session::UCIError;
