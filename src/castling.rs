//! Castling notation. The protocol writes castling as the king's two-square
//! step (e1g1); the board writes it as the king moving onto its own rook (e1h1).
use vstd::prelude::*;
use crate::chess::{piece_at, piece_on, Move, Piece};

verus! {

pub const A1: u8 = 0;
pub const C1: u8 = 2;
pub const E1: u8 = 4;
pub const G1: u8 = 6;
pub const H1: u8 = 7;
pub const A8: u8 = 56;
pub const C8: u8 = 58;
pub const E8: u8 = 60;
pub const G8: u8 = 62;
pub const H8: u8 = 63;

/// The board's destination for a king move from `from` to `to`.
pub open spec fn internal_to(from: u8, to: u8) -> u8 {
    if from == E1 && to == G1 {
        H1
    } else if from == E8 && to == G8 {
        H8
    } else if from == E1 && to == C1 {
        A1
    } else if from == E8 && to == C8 {
        A8
    } else {
        to
    }
}

/// The protocol's destination for a king move from `from` to `to`.
pub open spec fn external_to(from: u8, to: u8) -> u8 {
    if from == E1 && to == H1 {
        G1
    } else if from == E8 && to == H8 {
        G8
    } else if from == E1 && to == A1 {
        C1
    } else if from == E8 && to == A8 {
        C8
    } else {
        to
    }
}

/// `mv` in the board's notation, where `king` tells whether a king makes it.
pub open spec fn spec_to_internal(mv: Move, king: bool) -> Move {
    if king {
        Move { to: internal_to(mv.from, mv.to), ..mv }
    } else {
        mv
    }
}

/// `mv` in the protocol's notation, where `king` tells whether a king makes it.
pub open spec fn spec_to_external(mv: Move, king: bool) -> Move {
    if king {
        Move { to: external_to(mv.from, mv.to), ..mv }
    } else {
        mv
    }
}

/// Rewrites a castling move from the protocol's notation into the board's.
pub fn to_internal(mv: Move, king: bool) -> (r: Move)
    ensures
        r == spec_to_internal(mv, king),
{
    if !king {
        return mv;
    }
    let to = if mv.from == E1 && mv.to == G1 {
        H1
    } else if mv.from == E8 && mv.to == G8 {
        H8
    } else if mv.from == E1 && mv.to == C1 {
        A1
    } else if mv.from == E8 && mv.to == C8 {
        A8
    } else {
        mv.to
    };
    Move { to, ..mv }
}

/// Rewrites a castling move from the board's notation into the protocol's.
pub fn to_external(mv: Move, king: bool) -> (r: Move)
    ensures
        r == spec_to_external(mv, king),
{
    if !king {
        return mv;
    }
    let to = if mv.from == E1 && mv.to == H1 {
        G1
    } else if mv.from == E8 && mv.to == H8 {
        G8
    } else if mv.from == E1 && mv.to == A1 {
        C1
    } else if mv.from == E8 && mv.to == A8 {
        C8
    } else {
        mv.to
    };
    Move { to, ..mv }
}

/// A move from the protocol, rewritten for `board` when a king makes it.
pub fn check_castling_move(board: &cozy_chess::Board, mv: Move) -> (r: Move)
    requires
        mv.wf(),
    ensures
        r == spec_to_internal(mv, piece_at(*board, mv.from) == Some(Piece::King)),
        r.wf(),
{
    let king = piece_on(board, mv.from) == Some(Piece::King);
    to_internal(mv, king)
}

/// A move of `board`, rewritten for the protocol when a king makes it.
pub fn reverse_castling_move(board: &cozy_chess::Board, mv: Move) -> (r: Move)
    requires
        mv.wf(),
    ensures
        r == spec_to_external(mv, piece_at(*board, mv.from) == Some(Piece::King)),
        r.wf(),
{
    let king = piece_on(board, mv.from) == Some(Piece::King);
    to_external(mv, king)
}

/// Rewriting into the board's notation, out and back in, gives the same move.
pub proof fn internal_round_trip(mv: Move, king: bool)
    ensures
        spec_to_internal(spec_to_external(spec_to_internal(mv, king), king), king)
            == spec_to_internal(mv, king),
{
}

/// A king move whose destination is not its own rook's corner comes back to
/// its destination from the board's notation.
pub proof fn external_round_trip(mv: Move)
    requires
        !(mv.from == E1 && (mv.to == H1 || mv.to == A1)),
        !(mv.from == E8 && (mv.to == H8 || mv.to == A8)),
    ensures
        spec_to_external(spec_to_internal(mv, true), true) == mv,
{
}

} // verus!
