//! The `go` command: one search directive chosen by a fixed keyword priority.
use vstd::prelude::*;
use crate::clock::{allocate, time_for_move};
use crate::numbers::{as_i32, as_u64, parse_i32, parse_u64};
use crate::words::{arg_of, find, view_words, word_after, position_of};

verus! {

/// The stopping condition of one search.
#[derive(Debug, Clone, Copy, PartialEq, Eq, Structural)]
pub enum SearchType {
    /// A time budget in milliseconds.
    Time(u64),
    /// A budget of searched nodes.
    Nodes(u64),
    /// A depth in plies.
    Depth(i32),
    /// Search until the engine stops on its own.
    Infinite,
}

pub open spec fn has(ws: Seq<Seq<char>>, k: &str) -> bool {
    find(ws, k@) is Some
}

pub open spec fn opt_u64(a: Option<Seq<char>>) -> Option<u64> {
    match a {
        Some(w) => as_u64(w),
        None => None,
    }
}

/// The clock directive: the side's own remaining time is required, its increment
/// and the moves-to-go count count only where they read as numbers.
pub open spec fn clock_directive(ws: Seq<Seq<char>>, white: bool) -> Option<SearchType> {
    let time_key = if white { "wtime" } else { "btime" };
    let inc_key = if white { "winc" } else { "binc" };
    match opt_u64(arg_of(ws, time_key@)) {
        Some(t) => {
            let inc = opt_u64(arg_of(ws, inc_key@));
            let mtg = opt_u64(arg_of(ws, "movestogo"@));
            Some(SearchType::Time(allocate(t, inc, mtg) as u64))
        },
        None => None,
    }
}

/// The directive of a `go` command with words `ws`, for the side to move
/// (`white`): the first keyword present in the order depth, nodes, infinite,
/// movetime, wtime/btime decides; a malformed value there gives none.
pub open spec fn go_directive(ws: Seq<Seq<char>>, white: bool) -> Option<SearchType> {
    if has(ws, "depth") {
        match arg_of(ws, "depth"@) {
            Some(w) => match as_i32(w) {
                Some(d) => Some(SearchType::Depth(d)),
                None => None,
            },
            None => None,
        }
    } else if has(ws, "nodes") {
        match opt_u64(arg_of(ws, "nodes"@)) {
            Some(n) => Some(SearchType::Nodes(n)),
            None => None,
        }
    } else if has(ws, "infinite") {
        Some(SearchType::Infinite)
    } else if has(ws, "movetime") {
        match opt_u64(arg_of(ws, "movetime"@)) {
            Some(n) => Some(SearchType::Time(n)),
            None => None,
        }
    } else if has(ws, "wtime") || has(ws, "btime") {
        clock_directive(ws, white)
    } else {
        None
    }
}

fn u64_after(ws: &Vec<Vec<char>>, k: &str) -> (r: Option<u64>)
    ensures
        r == opt_u64(arg_of(view_words(ws@), k@)),
{
    match word_after(ws, k) {
        Some(w) => parse_u64(w),
        None => None,
    }
}

fn clock(ws: &Vec<Vec<char>>, white: bool) -> (r: Option<SearchType>)
    ensures
        r == clock_directive(view_words(ws@), white),
{
    let (time_key, inc_key) = if white { ("wtime", "winc") } else { ("btime", "binc") };
    match u64_after(ws, time_key) {
        Some(t) => {
            let inc = u64_after(ws, inc_key);
            let mtg = u64_after(ws, "movestogo");
            Some(SearchType::Time(time_for_move(t, inc, mtg)))
        },
        None => None,
    }
}

/// Reads the directive of the `go` command `words` for the side to move
/// (`white_to_move`); `None` where the command asks for no search.
pub fn go(words: &Vec<Vec<char>>, white_to_move: bool) -> (r: Option<SearchType>)
    ensures
        r == go_directive(view_words(words@), white_to_move),
{
    if position_of(words, "depth").is_some() {
        match word_after(words, "depth") {
            Some(w) => match parse_i32(w) {
                Some(d) => Some(SearchType::Depth(d)),
                None => None,
            },
            None => None,
        }
    } else if position_of(words, "nodes").is_some() {
        match u64_after(words, "nodes") {
            Some(n) => Some(SearchType::Nodes(n)),
            None => None,
        }
    } else if position_of(words, "infinite").is_some() {
        Some(SearchType::Infinite)
    } else if position_of(words, "movetime").is_some() {
        match u64_after(words, "movetime") {
            Some(n) => Some(SearchType::Time(n)),
            None => None,
        }
    } else if position_of(words, "wtime").is_some() || position_of(words, "btime").is_some() {
        clock(words, white_to_move)
    } else {
        None
    }
}

} // verus!
