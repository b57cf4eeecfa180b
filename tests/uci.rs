use cozy_chess::Board;
use svart::castling::{to_external, to_internal};
use svart::chess::{parse_move, Move, Piece};
use svart::clock::TIME_OVERHEAD;
use svart::directive::{go, SearchType};
use svart::numbers::{parse_i32, parse_u32, parse_u64};
use svart::session::{board_text, hash_option, Reply, Session, UCIError, DEFAULT_HASH};
use svart::words::split_words;
use svart::{check_castling_move, reverse_castling_move, time_for_move};

fn words(line: &str) -> Vec<Vec<char>> {
    split_words(&line.chars().collect())
}

fn chars(s: &str) -> Vec<char> {
    s.chars().collect()
}

fn ready() -> Session {
    let mut s = Session::new();
    assert_eq!(s.handle_line("uci"), Ok(Reply::Identify));
    s
}

fn mv(from: u8, to: u8) -> Move {
    Move { from, to, promotion: None }
}

#[test]
fn time_without_increment() {
    assert_eq!(time_for_move(6000, None, None), (6000 - TIME_OVERHEAD) / 20);
    assert_eq!(time_for_move(6000, None, None), 297);
}

#[test]
fn time_with_increment() {
    assert_eq!(time_for_move(6000, Some(200), None), (6000 - TIME_OVERHEAD) / 20 + 100);
    assert_eq!(time_for_move(6000, Some(200), None), 397);
}

#[test]
fn time_with_moves_to_go() {
    assert_eq!(time_for_move(6000, None, Some(10)), (6000 - TIME_OVERHEAD) / 10);
    assert_eq!(time_for_move(6000, Some(200), Some(10)), 595);
}

#[test]
fn time_edges() {
    assert_eq!(time_for_move(10, None, None), 0);
    assert_eq!(time_for_move(10, Some(300), None), 150);
    assert_eq!(time_for_move(1050, None, Some(0)), 1000);
    assert_eq!(time_for_move(100050, None, Some(1000)), 100);
    assert_eq!(time_for_move(u64::MAX, Some(u64::MAX), None), (u64::MAX - 50) / 20 + u64::MAX / 2);
}

#[test]
fn split_on_any_whitespace() {
    let w = words("  go\tdepth \u{a0} 5 \n");
    assert_eq!(w, vec![chars("go"), chars("depth"), chars("5")]);
    assert!(words("   ").is_empty());
}

#[test]
fn numbers_read_like_std() {
    assert_eq!(parse_u64(&chars("123")), Some(123));
    assert_eq!(parse_u64(&chars("+7")), Some(7));
    assert_eq!(parse_u64(&chars("-7")), None);
    assert_eq!(parse_u64(&chars("")), None);
    assert_eq!(parse_u64(&chars("+")), None);
    assert_eq!(parse_u64(&chars("18446744073709551615")), Some(u64::MAX));
    assert_eq!(parse_u64(&chars("18446744073709551616")), None);
    assert_eq!(parse_u32(&chars("4294967296")), None);
    assert_eq!(parse_u32(&chars("0007")), Some(7));
    assert_eq!(parse_i32(&chars("-2147483648")), Some(i32::MIN));
    assert_eq!(parse_i32(&chars("2147483648")), None);
    assert_eq!(parse_i32(&chars("-")), None);
    assert_eq!(parse_i32(&chars("1x")), None);
}

#[test]
fn depth_before_nodes() {
    assert_eq!(go(&words("go depth 5 nodes 100"), true), Some(SearchType::Depth(5)));
}

#[test]
fn go_keywords_in_priority_order() {
    assert_eq!(go(&words("go nodes 100 infinite"), true), Some(SearchType::Nodes(100)));
    assert_eq!(go(&words("go movetime 300 infinite"), true), Some(SearchType::Infinite));
    assert_eq!(go(&words("go wtime 1000 movetime 300"), true), Some(SearchType::Time(300)));
    assert_eq!(go(&words("go"), true), None);
    assert_eq!(go(&words("go ponder"), true), None);
}

#[test]
fn go_malformed_values_abort() {
    assert_eq!(go(&words("go depth x nodes 100"), true), None);
    assert_eq!(go(&words("go depth"), true), None);
    assert_eq!(go(&words("go nodes -1"), true), None);
    assert_eq!(go(&words("go movetime abc"), true), None);
    assert_eq!(go(&words("go wtime abc winc 100"), true), None);
}

#[test]
fn go_clock_for_each_side() {
    let line = words("go wtime 6000 btime 2050 winc 200 binc 40 movestogo 10");
    assert_eq!(go(&line, true), Some(SearchType::Time(595)));
    assert_eq!(go(&line, false), Some(SearchType::Time(200)));
    let no_mtg = words("go wtime 6000 btime 2050 winc 200 binc 40");
    assert_eq!(go(&no_mtg, true), Some(SearchType::Time(397)));
    assert_eq!(go(&no_mtg, false), Some(SearchType::Time(120)));
    assert_eq!(go(&words("go btime 2050"), true), None);
}

#[test]
fn go_malformed_modifiers_are_absent() {
    let line = words("go wtime 6000 winc x movestogo y");
    assert_eq!(go(&line, true), Some(SearchType::Time(297)));
    let large = words("go wtime 100 movestogo 300");
    assert_eq!(go(&large, true), Some(SearchType::Time(0)));
    let big = words("go wtime 60050 winc x movestogo 1000");
    assert_eq!(go(&big, true), Some(SearchType::Time(60)));
    assert_eq!(go(&words("go depth -3"), true), Some(SearchType::Depth(-3)));
}

#[test]
fn castling_rewrites_king_moves_only() {
    let board = Board::default();
    let e1g1 = mv(4, 6);
    assert_eq!(to_internal(e1g1, true), mv(4, 7));
    assert_eq!(to_internal(mv(4, 2), true), mv(4, 0));
    assert_eq!(to_internal(mv(60, 62), true), mv(60, 63));
    assert_eq!(to_internal(mv(60, 58), true), mv(60, 56));
    assert_eq!(to_internal(e1g1, false), e1g1);
    assert_eq!(check_castling_move(&board, e1g1), mv(4, 7));
    assert_eq!(check_castling_move(&board, mv(12, 28)), mv(12, 28));
    assert_eq!(check_castling_move(&board, mv(3, 6)), mv(3, 6));
    assert_eq!(reverse_castling_move(&board, mv(4, 7)), e1g1);
    assert_eq!(reverse_castling_move(&board, mv(60, 56)), mv(60, 58));
}

#[test]
fn castling_round_trip() {
    for (from, to) in [(4u8, 6u8), (4, 2), (60, 62), (60, 58)] {
        let m = Move { from, to, promotion: None };
        let i = to_internal(m, true);
        assert_eq!(to_internal(to_external(i, true), true), i);
        assert_eq!(to_external(i, true), m);
    }
    let plain = Move { from: 4, to: 12, promotion: Some(Piece::Queen) };
    assert_eq!(to_external(to_internal(plain, true), true), plain);
}

#[test]
fn hash_option_range() {
    assert_eq!(hash_option(&words("setoption name Hash value 64")), Some(64));
    assert_eq!(hash_option(&words("setoption name Hash value 1024000")), Some(1024000));
    assert_eq!(hash_option(&words("setoption name Hash value 1024001")), None);
    assert_eq!(hash_option(&words("setoption name Hash value 0")), None);
    assert_eq!(hash_option(&words("setoption name Hash value big")), None);
    assert_eq!(hash_option(&words("setoption name Threads value 4")), None);
    assert_eq!(hash_option(&words("setoption name Hash")), None);
}

#[test]
fn hash_then_new_game_sizes_table() {
    let mut s = ready();
    assert_eq!(s.handle_line("setoption name Hash value 256"), Ok(Reply::NewTable(256)));
    assert_eq!(s.handle_line("ucinewgame"), Ok(Reply::NewTable(256)));
    assert_eq!(s.tt_size, 256);
    assert_eq!(s.handle_line("setoption name Hash value 2000000"), Ok(Reply::Nothing));
    assert_eq!(s.handle_line("setoption name Hash value abc"), Ok(Reply::Nothing));
    assert_eq!(s.handle_line("ucinewgame"), Ok(Reply::NewTable(256)));
    assert_eq!(s.tt_size, 256);
}

#[test]
fn startpos_has_start_hash() {
    let mut s = ready();
    assert_eq!(s.handle_line("position startpos"), Ok(Reply::Nothing));
    assert!(s.board_set);
    assert_eq!(s.position.history, vec![Board::default().hash()]);
    assert_eq!(s.position.board.hash(), Board::default().hash());
}

#[test]
fn startpos_with_two_moves() {
    let mut s = ready();
    assert_eq!(s.handle_line("position startpos moves e2e4 e7e5"), Ok(Reply::Nothing));
    let mut b = Board::default();
    let h0 = b.hash();
    b.play("e2e4".parse().unwrap());
    let h1 = b.hash();
    b.play("e7e5".parse().unwrap());
    let h2 = b.hash();
    assert_eq!(s.position.history, vec![h0, h1, h2]);
    assert_eq!(s.position.board.hash(), h2);
}

#[test]
fn castling_move_in_move_list() {
    let mut s = ready();
    let fen = "r3k2r/8/8/8/8/8/8/R3K2R w KQkq - 0 1";
    let line = format!("position fen {} moves e1g1 e8c8", fen);
    assert_eq!(s.handle_line(&line), Ok(Reply::Nothing));
    let expected: Board = "2kr3r/8/8/8/8/8/8/R4RK1 w - - 2 2".parse().unwrap();
    assert_eq!(s.position.board.hash(), expected.hash());
    assert_eq!(s.position.history.len(), 3);
}

#[test]
fn fen_text_is_rejoined() {
    let w = words("position fen  8/8/8/8/8/8/8/K6k   b - - 0 1 moves a1a2");
    assert_eq!(board_text(&w), chars("8/8/8/8/8/8/8/K6k b - - 0 1"));
    assert_eq!(board_text(&words("position fen")), chars(""));
}

#[test]
fn bad_fen_keeps_position() {
    let mut s = ready();
    assert_eq!(s.handle_line("position startpos moves e2e4"), Ok(Reply::Nothing));
    let before = s.position.history.clone();
    assert_eq!(s.handle_line("position fen not/a/board w - - 0 1"), Ok(Reply::Nothing));
    assert_eq!(s.position.history, before);
    let mut fresh = ready();
    assert_eq!(fresh.handle_line("position fen nonsense"), Ok(Reply::Nothing));
    assert!(!fresh.board_set);
    assert_eq!(fresh.handle_line("go depth 3"), Ok(Reply::Nothing));
}

#[test]
fn fen_sets_side_to_move() {
    let mut s = ready();
    let line = "position fen 8/8/8/8/8/8/8/K6k b - - 0 1";
    assert_eq!(s.handle_line(line), Ok(Reply::Nothing));
    assert_eq!(s.position.history.len(), 1);
    let clock = s.handle_line("go wtime 6000 btime 2050");
    assert_eq!(clock, Ok(Reply::Search(SearchType::Time(100))));
}

#[test]
fn bad_move_is_an_error() {
    let mut s = ready();
    assert_eq!(s.handle_line("position startpos moves e2e5"), Err(UCIError::InvalidMove));
    let mut t = ready();
    assert_eq!(t.handle_line("position startpos moves zz"), Err(UCIError::InvalidMove));
}

#[test]
fn go_before_position_is_ignored() {
    let mut s = ready();
    assert_eq!(s.handle_line("go depth 5"), Ok(Reply::Nothing));
    assert_eq!(s.handle_line("go infinite"), Ok(Reply::Nothing));
    assert!(!s.board_set);
    assert_eq!(s.handle_line("position startpos"), Ok(Reply::Nothing));
    assert_eq!(s.handle_line("go depth 5 nodes 100"), Ok(Reply::Search(SearchType::Depth(5))));
}

#[test]
fn unknown_command_changes_nothing() {
    let mut s = ready();
    assert_eq!(s.handle_line("position startpos moves e2e4"), Ok(Reply::Nothing));
    let history = s.position.history.clone();
    let hash = s.position.board.hash();
    assert_eq!(s.handle_line("isreadyy"), Ok(Reply::Nothing));
    assert_eq!(s.handle_line("stop"), Ok(Reply::Nothing));
    assert_eq!(s.position.history, history);
    assert_eq!(s.position.board.hash(), hash);
    assert_eq!(s.tt_size, DEFAULT_HASH);
    assert!(s.uci_set && s.board_set);
}

#[test]
fn handshake_states() {
    let mut s = Session::new();
    assert_eq!(s.handle_line("isready"), Ok(Reply::Nothing));
    assert_eq!(s.handle_line("position startpos"), Ok(Reply::Nothing));
    assert!(!s.board_set);
    assert_eq!(s.handle_line(""), Ok(Reply::Nothing));
    assert_eq!(s.handle_line("bench"), Ok(Reply::Bench));
    assert_eq!(s.handle_line("uci"), Ok(Reply::Identify));
    assert!(s.uci_set);
    assert_eq!(s.handle_line("uci"), Ok(Reply::Identify));
    assert_eq!(s.handle_line("isready"), Ok(Reply::ReadyOk));
    assert_eq!(s.handle_line("bench"), Ok(Reply::Nothing));
    assert_eq!(s.handle_line("quit"), Ok(Reply::Quit));
    let mut t = Session::new();
    assert_eq!(t.handle_line("quit"), Ok(Reply::Quit));
}

#[test]
fn new_game_sets_start_position() {
    let mut s = ready();
    assert_eq!(s.handle_line("ucinewgame"), Ok(Reply::NewTable(DEFAULT_HASH)));
    assert!(s.board_set);
    assert_eq!(s.position.history, vec![Board::default().hash()]);
}

#[test]
fn move_words_read_as_stated() {
    let e2e4 = Move { from: 12, to: 28, promotion: None };
    assert_eq!(parse_move(&chars("e2e4")), Some(e2e4));
    assert_eq!(parse_move(&chars("e7e8q")), Some(Move { from: 52, to: 60, promotion: Some(Piece::Queen) }));
    assert_eq!(parse_move(&chars("a2a1n")), Some(Move { from: 8, to: 0, promotion: Some(Piece::Knight) }));
    assert_eq!(parse_move(&chars("e2e4k")), Some(e2e4));
    assert_eq!(parse_move(&chars("e2e4p")), Some(e2e4));
    assert_eq!(parse_move(&chars("e2e4\u{e9}")), Some(e2e4));
    assert_eq!(parse_move(&chars("e2e4qzz")), Some(Move { from: 12, to: 28, promotion: Some(Piece::Queen) }));
    assert_eq!(parse_move(&chars("e2e4x")), None);
    assert_eq!(parse_move(&chars("E2e4")), None);
    assert_eq!(parse_move(&chars("e9e4")), None);
    assert_eq!(parse_move(&chars("e2e")), None);
    assert_eq!(parse_move(&chars("h8a1")), Some(Move { from: 63, to: 0, promotion: None }));
}
