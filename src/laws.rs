//! Laws of the session that span several commands or every input.
use vstd::prelude::*;
use crate::numbers::{all_digits, digits_value, unsigned_value, unsigned_body};
use crate::session::{step, Reply, Session, UCIError, MAX_HASH};

verus! {

/// The words of `setoption name Hash value <value>`.
pub open spec fn hash_command(value: Seq<char>) -> Seq<Seq<char>> {
    seq!["setoption"@, "name"@, "Hash"@, "value"@, value]
}

/// The digit character for `d < 10`.
pub open spec fn digit_char(d: nat) -> char {
    seq!['0', '1', '2', '3', '4', '5', '6', '7', '8', '9'][d as int]
}

/// `n` written in decimal.
pub open spec fn decimal(n: nat) -> Seq<char>
    decreases n,
{
    if n < 10 {
        seq![digit_char(n)]
    } else {
        decimal(n / 10).push(digit_char(n % 10))
    }
}

proof fn digit_char_value(d: nat)
    requires
        d < 10,
    ensures
        crate::numbers::is_digit(digit_char(d)),
        crate::numbers::digit_value(digit_char(d)) == d,
{
    if d == 0 {} else if d == 1 {} else if d == 2 {} else if d == 3 {} else if d == 4 {}
    else if d == 5 {} else if d == 6 {} else if d == 7 {} else if d == 8 {} else {}
}

proof fn decimal_digits(n: nat)
    ensures
        decimal(n).len() > 0,
        all_digits(decimal(n)),
        digits_value(decimal(n)) == n,
    decreases n,
{
    let s = decimal(n);
    if n < 10 {
        digit_char_value(n);
        assert(s.drop_last() =~= Seq::<char>::empty());
        assert(digits_value(s) == digits_value(s.drop_last()) * 10 + crate::numbers::digit_value(s.last()));
    } else {
        digit_char_value(n % 10);
        decimal_digits(n / 10);
        let p = decimal(n / 10);
        assert(s.drop_last() =~= p);
        assert(s.last() == digit_char(n % 10));
        assert(digits_value(s) == digits_value(p) * 10 + crate::numbers::digit_value(s.last()));
        assert((n / 10) * 10 + n % 10 == n) by (nonlinear_arith);
        assert forall|i: int| 0 <= i < s.len() implies crate::numbers::is_digit(#[trigger] s[i]) by {
            if i < p.len() {
                assert(s[i] == p[i]);
            }
        }
    }
}

/// A number written in decimal reads back as itself.
pub proof fn decimal_reads_back(n: nat)
    ensures
        unsigned_value(decimal(n)) == Some(n),
{
    decimal_digits(n);
    let s = decimal(n);
    assert(crate::numbers::is_digit(s[0]));
    assert(unsigned_body(s) == s);
}

/// A `setoption name Hash value <value>` line and then `ucinewgame` leave the
/// session asking for a table of `value`'s size where that is a number from 1 to
/// the maximum, and of the size it had before otherwise.
pub proof fn hash_then_new_game(
    s0: Session,
    s1: Session,
    s2: Session,
    r1: Result<Reply, UCIError>,
    r2: Result<Reply, UCIError>,
    value: Seq<char>,
)
    requires
        s0.uci_set,
        step(s0, s1, hash_command(value), r1),
        step(s1, s2, seq!["ucinewgame"@], r2),
    ensures
        r2 == Ok::<Reply, UCIError>(Reply::NewTable(s2.tt_size)),
        s2.tt_size == (match unsigned_value(value) {
            Some(v) => if 1 <= v <= MAX_HASH { v } else { s0.tt_size as nat },
            None => s0.tt_size as nat,
        }),
{
    reveal_strlit("setoption");
    reveal_strlit("ucinewgame");
    reveal_strlit("uci");
    reveal_strlit("isready");
    reveal_strlit("name");
    reveal_strlit("Hash");
    reveal_strlit("value");
    assert("setoption"@.len() == 9);
    assert("ucinewgame"@.len() == 10);
    assert("uci"@.len() == 3);
    assert("isready"@.len() == 7);
    assert(hash_command(value)[0] == "setoption"@);
    assert(hash_command(value)[0] != "uci"@);
    assert(hash_command(value)[0] != "isready"@);
    assert(hash_command(value)[0] != "ucinewgame"@);
    assert(seq!["ucinewgame"@][0] != "uci"@);
    assert(seq!["ucinewgame"@][0] != "isready"@);
}

/// `go` before any position has been set up does nothing: no search, no change.
pub proof fn go_without_position(s0: Session, s1: Session, ws: Seq<Seq<char>>, r: Result<Reply, UCIError>)
    requires
        !s0.board_set,
        ws.len() > 0,
        ws[0] == "go"@,
        step(s0, s1, ws, r),
    ensures
        s1 == s0,
        r == Ok::<Reply, UCIError>(Reply::Nothing),
{
    reveal_strlit("go");
    reveal_strlit("uci");
    reveal_strlit("quit");
    reveal_strlit("bench");
    reveal_strlit("isready");
    reveal_strlit("ucinewgame");
    reveal_strlit("setoption");
    reveal_strlit("position");
    assert("go"@.len() == 2);
    assert("uci"@.len() == 3);
    assert("quit"@.len() == 4);
    assert("bench"@.len() == 5);
    assert("isready"@.len() == 7);
    assert("ucinewgame"@.len() == 10);
    assert("setoption"@.len() == 9);
    assert("position"@.len() == 8);
}

/// A line whose first word is no command leaves the session as it was and asks
/// for nothing.
pub proof fn unknown_command(s0: Session, s1: Session, ws: Seq<Seq<char>>, r: Result<Reply, UCIError>)
    requires
        ws.len() > 0,
        ws[0] != "uci"@,
        ws[0] != "isready"@,
        ws[0] != "ucinewgame"@,
        ws[0] != "setoption"@,
        ws[0] != "position"@,
        ws[0] != "go"@,
        ws[0] != "quit"@,
        ws[0] != "bench"@,
        step(s0, s1, ws, r),
    ensures
        s1 == s0,
        r == Ok::<Reply, UCIError>(Reply::Nothing),
{
}

} // verus!
