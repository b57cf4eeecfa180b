//! The command session: its state, and what each command line does to it.
use vstd::prelude::*;
use crate::castling::{check_castling_move, spec_to_internal};
use crate::chess::{
    board_from_fen, board_hash, fen_board, hash_of, move_of, parse_move, piece_at, play_of,
    start_board, try_play, white_of, white_to_move, Piece, start_fen,
};
use crate::directive::{go, go_directive, SearchType};
use crate::numbers::as_u32;
use crate::numbers::parse_u32;
use crate::words::{find, is_word, position_of, split_words, view_words, words_of};

verus! {

/// Table size, in the table's own unit, before any option sets one.
pub const DEFAULT_HASH: u32 = 16;

/// The largest table size the `Hash` option takes.
pub const MAX_HASH: u32 = 1024000;

/// Why a command could not be carried out.
#[derive(Debug, Clone, Copy, PartialEq, Eq, Structural)]
pub enum UCIError {
    /// A position text that the board does not read.
    InvalidPosition,
    /// A word of a move list that is no legal move of the position it meets.
    InvalidMove,
}

/// A board together with the hashes of the positions it went through since
/// it was set up, the last one being its own.
pub struct Position {
    pub board: cozy_chess::Board,
    pub history: Vec<u64>,
}

/// The board after the move that `word` writes in the protocol's notation,
/// where it reads as a move and is legal on `board`.
pub open spec fn after_word(board: cozy_chess::Board, word: Seq<char>) -> Option<cozy_chess::Board> {
    match move_of(word) {
        Some(m) => play_of(board, spec_to_internal(m, piece_at(board, m.from) == Some(Piece::King))),
        None => None,
    }
}

/// The board after the move words `ws` in turn, where each one applies.
pub open spec fn replay(board: cozy_chess::Board, ws: Seq<Seq<char>>) -> Option<cozy_chess::Board>
    decreases ws.len(),
{
    if ws.len() == 0 {
        Some(board)
    } else {
        match replay(board, ws.drop_last()) {
            Some(b) => after_word(b, ws.last()),
            None => None,
        }
    }
}

/// The hashes of the boards after each of the move words `ws`, in order.
pub open spec fn replay_hashes(board: cozy_chess::Board, ws: Seq<Seq<char>>) -> Seq<u64>
    decreases ws.len(),
{
    if ws.len() == 0 {
        seq![]
    } else {
        replay_hashes(board, ws.drop_last()).push(
            match replay(board, ws) {
                Some(b) => hash_of(b),
                None => 0,
            },
        )
    }
}

proof fn lemma_replay_stops(board: cozy_chess::Board, ws: Seq<Seq<char>>, i: int)
    requires
        0 <= i <= ws.len(),
        replay(board, ws.subrange(0, i)) is None,
    ensures
        replay(board, ws) is None,
    decreases ws.len() - i,
{
    if i < ws.len() {
        assert(ws.subrange(0, i + 1).drop_last() =~= ws.subrange(0, i));
        lemma_replay_stops(board, ws, i + 1);
    } else {
        assert(ws.subrange(0, i) =~= ws);
    }
}

impl Position {
    /// A position set up from `board`: its history holds the board's hash alone.
    pub fn new(board: cozy_chess::Board) -> (r: Position)
        ensures
            r.board == board,
            r.history@ == seq![hash_of(board)],
    {
        let h = board_hash(&board);
        let mut history: Vec<u64> = Vec::new();
        history.push(h);
        assert(history@ =~= seq![h]);
        Position { board, history }
    }

    /// The standard start position.
    pub fn startpos() -> (r: Position)
        ensures
            fen_board(start_fen()) == Some(r.board),
            r.history@ == seq![hash_of(r.board)],
    {
        Position::new(start_board())
    }

    /// The position a text in Forsyth-Edwards notation describes.
    pub fn from_fen(fen: &Vec<char>) -> (r: Result<Position, UCIError>)
        ensures
            r is Ok == fen_board(fen@) is Some,
            r matches Ok(p) ==> fen_board(fen@) == Some(p.board) && p.history@ == seq![hash_of(p.board)],
            r matches Err(e) ==> e == UCIError::InvalidPosition,
    {
        match board_from_fen(fen) {
            Some(b) => Ok(Position::new(b)),
            None => Err(UCIError::InvalidPosition),
        }
    }

    /// Plays the move that `word` writes in the protocol's notation and records
    /// the new hash; an unreadable or illegal move changes nothing.
    pub fn play_word(&mut self, word: &Vec<char>) -> (r: Result<(), UCIError>)
        ensures
            r is Ok == after_word(old(self).board, word@) is Some,
            r is Ok ==> after_word(old(self).board, word@) == Some(final(self).board)
                && final(self).history@ == old(self).history@.push(hash_of(final(self).board)),
            r matches Err(e) ==> e == UCIError::InvalidMove && *final(self) == *old(self),
    {
        let mv = match parse_move(word) {
            Some(m) => m,
            None => return Err(UCIError::InvalidMove),
        };
        let mv = check_castling_move(&self.board, mv);
        if !try_play(&mut self.board, mv) {
            return Err(UCIError::InvalidMove);
        }
        let h = board_hash(&self.board);
        self.history.push(h);
        Ok(())
    }
}

/// Words joined by single spaces.
pub open spec fn join(ws: Seq<Seq<char>>) -> Seq<char>
    decreases ws.len(),
{
    if ws.len() == 0 {
        seq![]
    } else if ws.len() == 1 {
        ws[0]
    } else {
        join(ws.drop_last()) + seq![' '] + ws.last()
    }
}

/// Where the words of a `position` command's board text end: at the first
/// `moves`, or at the end of the line.
pub open spec fn fen_end(ws: Seq<Seq<char>>) -> int {
    match find(ws, "moves"@) {
        Some(i) => if i < 2 { 2 } else { i },
        None => ws.len() as int,
    }
}

/// The board text of `position fen ...`: the words after `fen`, up to the move list.
pub open spec fn fen_text(ws: Seq<Seq<char>>) -> Seq<char> {
    if ws.len() < 2 {
        seq![]
    } else {
        join(ws.subrange(2, fen_end(ws)))
    }
}

/// The move words of a `position` command: all words after the first `moves`.
pub open spec fn move_words(ws: Seq<Seq<char>>) -> Seq<Seq<char>> {
    match find(ws, "moves"@) {
        Some(i) => ws.subrange(i + 1, ws.len() as int),
        None => seq![],
    }
}

fn push_word(r: &mut Vec<char>, w: &Vec<char>)
    ensures
        final(r)@ == old(r)@ + w@,
{
    let ghost start = r@;
    let mut j: usize = 0;
    while j < w.len()
        invariant
            j <= w@.len(),
            r@ == start + w@.subrange(0, j as int),
        decreases w@.len() - j,
    {
        r.push(w[j]);
        j = j + 1;
        assert(r@ =~= start + w@.subrange(0, j as int));
    }
    assert(w@.subrange(0, j as int) =~= w@);
}

/// The board text of the `position fen ...` command `words`.
pub fn board_text(words: &Vec<Vec<char>>) -> (r: Vec<char>)
    ensures
        r@ == fen_text(view_words(words@)),
{
    let ghost ws = view_words(words@);
    let mut r: Vec<char> = Vec::new();
    if words.len() < 2 {
        return r;
    }
    let end: usize = match position_of(words, "moves") {
        Some(i) => if i < 2 { 2 } else { i },
        None => words.len(),
    };
    let mut k: usize = 2;
    assert(ws.subrange(2, 2) =~= Seq::<Seq<char>>::empty());
    while k < end
        invariant
            2 <= k <= end,
            end == fen_end(ws),
            end <= ws.len(),
            ws == view_words(words@),
            r@ == join(ws.subrange(2, k as int)),
        decreases end - k,
    {
        let ghost before = ws.subrange(2, k as int);
        assert(ws.subrange(2, k + 1).drop_last() =~= before);
        assert(ws.subrange(2, k + 1).last() == words@[k as int]@);
        if k > 2 {
            r.push(' ');
        } else {
            assert(r@ =~= seq![]);
        }
        push_word(&mut r, &words[k]);
        k = k + 1;
        assert(r@ =~= join(ws.subrange(2, k as int)));
    }
    r
}

/// What the engine is to do after a command line.
#[derive(Debug, Clone, Copy, PartialEq, Eq, Structural)]
pub enum Reply {
    /// Nothing: the line changed at most the session.
    Nothing,
    /// Print the engine's name, author and options, then `uciok`.
    Identify,
    /// Print `readyok`.
    ReadyOk,
    /// Build a new table of the given size, and a new search over it.
    NewTable(u32),
    /// Search the session's position under the directive, then reset the search's counters.
    Search(SearchType),
    /// Run the built-in benchmark, then stop.
    Bench,
    /// Stop.
    Quit,
}

/// The state a command line meets.
pub struct Session {
    /// The position that searches start from.
    pub position: Position,
    /// The size the search's table has.
    pub tt_size: u32,
    /// The handshake (`uci`) has taken place.
    pub uci_set: bool,
    /// A position has been set up.
    pub board_set: bool,
}

/// The size that `setoption name Hash value <n>` sets: `n` read as a number
/// from 1 up to the maximum.
pub open spec fn hash_setting(ws: Seq<Seq<char>>) -> Option<u32> {
    if ws.len() >= 5 && ws[1] == "name"@ && ws[2] == "Hash"@ && ws[3] == "value"@ {
        match as_u32(ws[4]) {
            Some(v) => if 1 <= v <= MAX_HASH { Some(v) } else { None },
            None => None,
        }
    } else {
        None
    }
}

pub open spec fn search_reply(d: Option<SearchType>) -> Reply {
    match d {
        Some(st) => Reply::Search(st),
        None => Reply::Nothing,
    }
}

/// `new` and `r` are what a `position` command with words `ws` made of `old`,
/// where the position set up before the move list has board `b0` and history
/// `h0`, and `fresh` tells whether the command set that position up itself.
pub open spec fn position_set(
    old: Session,
    new: Session,
    ws: Seq<Seq<char>>,
    r: Result<Reply, UCIError>,
    b0: cozy_chess::Board,
    h0: Seq<u64>,
    fresh: bool,
) -> bool {
    let set = fresh || old.board_set;
    let moves = if find(ws, "moves"@) is Some && set { move_words(ws) } else { seq![] };
    &&& new.tt_size == old.tt_size
    &&& new.uci_set == old.uci_set
    &&& r is Ok == replay(b0, moves) is Some
    &&& r is Ok ==> {
        &&& r == Ok::<Reply, UCIError>(Reply::Nothing)
        &&& new.board_set == set
        &&& replay(b0, moves) == Some(new.position.board)
        &&& new.position.history@ == h0 + replay_hashes(b0, moves)
        &&& !fresh && moves.len() == 0 ==> new == old
    }
    &&& r is Err ==> r == Err::<Reply, UCIError>(UCIError::InvalidMove)
}

/// What a `position` command with words `ws` does: `startpos` sets up the
/// start position, `fen` the board its text reads as (nothing where it reads
/// as none), and the moves after `moves` are played on what is then set up.
pub open spec fn position_step(old: Session, new: Session, ws: Seq<Seq<char>>, r: Result<Reply, UCIError>) -> bool {
    if ws.len() > 1 && ws[1] == "startpos"@ {
        match fen_board(start_fen()) {
            Some(b0) => position_set(old, new, ws, r, b0, seq![hash_of(b0)], true),
            None => false,
        }
    } else if ws.len() > 1 && ws[1] == "fen"@ {
        match fen_board(fen_text(ws)) {
            Some(b0) => position_set(old, new, ws, r, b0, seq![hash_of(b0)], true),
            None => position_set(old, new, ws, r, old.position.board, old.position.history@, false),
        }
    } else {
        position_set(old, new, ws, r, old.position.board, old.position.history@, false)
    }
}

/// What the handshake-less session does with the line `ws`.
pub open spec fn opening_step(old: Session, new: Session, ws: Seq<Seq<char>>, r: Result<Reply, UCIError>) -> bool {
    if ws[0] == "uci"@ {
        r == Ok::<Reply, UCIError>(Reply::Identify) && new.uci_set && new.position == old.position
            && new.tt_size == old.tt_size && new.board_set == old.board_set
    } else if ws[0] == "quit"@ {
        r == Ok::<Reply, UCIError>(Reply::Quit) && new == old
    } else if ws[0] == "bench"@ {
        r == Ok::<Reply, UCIError>(Reply::Bench) && new == old
    } else {
        r == Ok::<Reply, UCIError>(Reply::Nothing) && new == old
    }
}

/// What the session does with the line `ws` once the handshake has taken place.
pub open spec fn ready_step(old: Session, new: Session, ws: Seq<Seq<char>>, r: Result<Reply, UCIError>) -> bool {
    let cmd = ws[0];
    if cmd == "uci"@ {
        r == Ok::<Reply, UCIError>(Reply::Identify) && new == old
    } else if cmd == "isready"@ {
        r == Ok::<Reply, UCIError>(Reply::ReadyOk) && new == old
    } else if cmd == "ucinewgame"@ {
        &&& r == Ok::<Reply, UCIError>(Reply::NewTable(old.tt_size))
        &&& new.tt_size == old.tt_size && new.uci_set == old.uci_set
        &&& new.board_set && fen_board(start_fen()) == Some(new.position.board)
        &&& new.position.history@ == seq![hash_of(new.position.board)]
    } else if cmd == "setoption"@ {
        match hash_setting(ws) {
            Some(v) => r == Ok::<Reply, UCIError>(Reply::NewTable(v)) && new.tt_size == v
                && new.position == old.position && new.uci_set == old.uci_set && new.board_set
                == old.board_set,
            None => r == Ok::<Reply, UCIError>(Reply::Nothing) && new == old,
        }
    } else if cmd == "position"@ {
        position_step(old, new, ws, r)
    } else if cmd == "go"@ {
        &&& new == old
        &&& !old.board_set ==> r == Ok::<Reply, UCIError>(Reply::Nothing)
        &&& old.board_set ==> r == Ok::<Reply, UCIError>(
            search_reply(go_directive(ws, white_of(old.position.board))),
        )
    } else if cmd == "quit"@ {
        r == Ok::<Reply, UCIError>(Reply::Quit) && new == old
    } else {
        r == Ok::<Reply, UCIError>(Reply::Nothing) && new == old
    }
}

/// What the session does with the line whose words are `ws`.
pub open spec fn step(old: Session, new: Session, ws: Seq<Seq<char>>, r: Result<Reply, UCIError>) -> bool {
    if ws.len() == 0 {
        r == Ok::<Reply, UCIError>(Reply::Nothing) && new == old
    } else if !old.uci_set {
        opening_step(old, new, ws, r)
    } else {
        ready_step(old, new, ws, r)
    }
}

/// The table size that `setoption` command `words` sets, if any.
pub fn hash_option(words: &Vec<Vec<char>>) -> (r: Option<u32>)
    ensures
        r == hash_setting(view_words(words@)),
{
    if words.len() >= 5 && is_word(&words[1], "name") && is_word(&words[2], "Hash")
        && is_word(&words[3], "value") {
        match parse_u32(&words[4]) {
            Some(v) => if 1 <= v && v <= MAX_HASH { Some(v) } else { None },
            None => None,
        }
    } else {
        None
    }
}

impl Session {
    pub open spec fn wf(&self) -> bool {
        1 <= self.tt_size <= MAX_HASH
    }

    /// A session before the handshake: start position (not yet set up), default table size.
    pub fn new() -> (r: Session)
        ensures
            r.wf(),
            r.tt_size == DEFAULT_HASH,
            !r.uci_set,
            !r.board_set,
    {
        Session { position: Position::startpos(), tt_size: DEFAULT_HASH, uci_set: false, board_set: false }
    }

    /// Plays the move words `words[from..]` on the session's position.
    fn play_words(&mut self, words: &Vec<Vec<char>>, from: usize) -> (r: Result<(), UCIError>)
        requires
            from <= words@.len(),
        ensures
            final(self).tt_size == old(self).tt_size,
            final(self).uci_set == old(self).uci_set,
            final(self).board_set == old(self).board_set,
            ({
                let tail = view_words(words@).subrange(from as int, words@.len() as int);
                let b0 = old(self).position.board;
                &&& r is Ok == replay(b0, tail) is Some
                &&& r is Ok ==> replay(b0, tail) == Some(final(self).position.board)
                    && final(self).position.history@ == old(self).position.history@
                    + replay_hashes(b0, tail)
            }),
            r is Ok && from == words@.len() ==> *final(self) == *old(self),
            r matches Err(e) ==> e == UCIError::InvalidMove,
    {
        let ghost ws = view_words(words@);
        let ghost b0 = self.position.board;
        let ghost h0 = self.position.history@;
        let ghost tail = ws.subrange(from as int, ws.len() as int);
        let mut k: usize = from;
        assert(ws.subrange(from as int, from as int) =~= Seq::<Seq<char>>::empty());
        assert(h0 + Seq::<u64>::empty() =~= h0);
        while k < words.len()
            invariant
                from <= k <= words@.len(),
                ws == view_words(words@),
                tail == ws.subrange(from as int, ws.len() as int),
                self.tt_size == old(self).tt_size,
                self.uci_set == old(self).uci_set,
                self.board_set == old(self).board_set,
                b0 == old(self).position.board,
                h0 == old(self).position.history@,
                replay(b0, ws.subrange(from as int, k as int)) == Some(self.position.board),
                self.position.history@ == h0 + replay_hashes(b0, ws.subrange(from as int, k as int)),
                k == from ==> *self == *old(self),
            decreases words@.len() - k,
        {
            let ghost done = ws.subrange(from as int, k as int);
            let ghost next = ws.subrange(from as int, k + 1);
            assert(next.drop_last() =~= done);
            assert(next.last() == words@[k as int]@);
            assert(tail.subrange(0, k + 1 - from) =~= next);
            match self.position.play_word(&words[k]) {
                Ok(()) => {},
                Err(e) => {
                    proof {
                        lemma_replay_stops(b0, tail, k + 1 - from);
                    }
                    return Err(e);
                },
            }
            assert(self.position.history@ =~= h0 + replay_hashes(b0, next));
            k = k + 1;
        }
        assert(ws.subrange(from as int, k as int) =~= tail);
        Ok(())
    }

    /// The `position` command `words`: set up the start position or the one a
    /// board text describes (keeping the old one where the text does not
    /// read), then play the moves after `moves` on whatever position is set up.
    fn set_position(&mut self, words: &Vec<Vec<char>>) -> (r: Result<Reply, UCIError>)
        ensures
            position_step(*old(self), *final(self), view_words(words@), r),
    {
        let ghost ws = view_words(words@);
        let ghost start = *self;
        let ghost mut fresh: bool = false;
        if words.len() > 1 && is_word(&words[1], "startpos") {
            self.position = Position::startpos();
            self.board_set = true;
            proof { fresh = true; }
        } else if words.len() > 1 && is_word(&words[1], "fen") {
            let text = board_text(words);
            match Position::from_fen(&text) {
                Ok(p) => {
                    self.position = p;
                    self.board_set = true;
                    proof { fresh = true; }
                },
                Err(_) => {},
            }
        }
        let ghost b0 = self.position.board;
        let ghost h0 = self.position.history@;
        assert(!fresh ==> *self == start);
        assert(h0 + Seq::<u64>::empty() =~= h0);
        let r: Result<Reply, UCIError> = match position_of(words, "moves") {
            Some(i) => {
                if self.board_set {
                    let played = self.play_words(words, i + 1);
                    assert(move_words(ws) =~= ws.subrange(i + 1, ws.len() as int));
                    match played {
                        Ok(()) => Ok(Reply::Nothing),
                        Err(e) => Err(e),
                    }
                } else {
                    Ok(Reply::Nothing)
                }
            },
            None => Ok(Reply::Nothing),
        };
        assert(position_set(start, *self, ws, r, b0, h0, fresh));
        r
    }

    /// Carries out the command line whose words are `words`.
    pub fn handle(&mut self, words: &Vec<Vec<char>>) -> (r: Result<Reply, UCIError>)
        requires
            old(self).wf(),
        ensures
            final(self).wf(),
            step(*old(self), *final(self), view_words(words@), r),
    {
        if words.len() == 0 {
            return Ok(Reply::Nothing);
        }
        let cmd = &words[0];
        if !self.uci_set {
            if is_word(cmd, "uci") {
                self.uci_set = true;
                Ok(Reply::Identify)
            } else if is_word(cmd, "quit") {
                Ok(Reply::Quit)
            } else if is_word(cmd, "bench") {
                Ok(Reply::Bench)
            } else {
                Ok(Reply::Nothing)
            }
        } else if is_word(cmd, "uci") {
            Ok(Reply::Identify)
        } else if is_word(cmd, "isready") {
            Ok(Reply::ReadyOk)
        } else if is_word(cmd, "ucinewgame") {
            self.position = Position::startpos();
            self.board_set = true;
            Ok(Reply::NewTable(self.tt_size))
        } else if is_word(cmd, "setoption") {
            match hash_option(words) {
                Some(v) => {
                    self.tt_size = v;
                    Ok(Reply::NewTable(v))
                },
                None => Ok(Reply::Nothing),
            }
        } else if is_word(cmd, "position") {
            self.set_position(words)
        } else if is_word(cmd, "go") {
            if !self.board_set {
                return Ok(Reply::Nothing);
            }
            let white = white_to_move(&self.position.board);
            let r = match go(words, white) {
                Some(st) => Ok(Reply::Search(st)),
                None => Ok(Reply::Nothing),
            };
            assert(r == Ok::<Reply, UCIError>(search_reply(go_directive(view_words(words@), white))));
            r
        } else if is_word(cmd, "quit") {
            Ok(Reply::Quit)
        } else {
            Ok(Reply::Nothing)
        }
    }

    /// Carries out one command line.
    pub fn handle_line(&mut self, line: &str) -> (r: Result<Reply, UCIError>)
        requires
            old(self).wf(),
        ensures
            final(self).wf(),
            step(*old(self), *final(self), words_of(line@), r),
    {
        let n = line.unicode_len();
        let mut chars: Vec<char> = Vec::new();
        let mut i: usize = 0;
        while i < n
            invariant
                n == line@.len(),
                i <= n,
                chars@ == line@.subrange(0, i as int),
            decreases n - i,
        {
            chars.push(line.get_char(i));
            i = i + 1;
            assert(chars@ =~= line@.subrange(0, i as int));
        }
        assert(chars@ =~= line@);
        let words = split_words(&chars);
        self.handle(&words)
    }
}

} // verus!
