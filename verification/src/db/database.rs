//! Settings applied to every connection the pool hands out, as the SQL
//! statements that apply them.

use vstd::prelude::*;

verus! {

/// The character of a decimal digit.
pub open spec fn decimal_digit(d: nat) -> char {
    ('0' as int + d) as char
}

/// The decimal text of `n`: its digits, most significant first, with no
/// leading zero.
pub open spec fn decimal_text(n: nat) -> Seq<char>
    decreases n,
{
    if n < 10 {
        seq![decimal_digit(n)]
    } else {
        decimal_text(n / 10).push(decimal_digit(n % 10))
    }
}

fn digit_text(d: u128) -> (text: &'static str)
    requires
        d < 10,
    ensures
        text@ == seq![decimal_digit(d as nat)],
{
    if d == 0 {
        proof { reveal_strlit("0"); }
        "0"
    } else if d == 1 {
        proof { reveal_strlit("1"); }
        "1"
    } else if d == 2 {
        proof { reveal_strlit("2"); }
        "2"
    } else if d == 3 {
        proof { reveal_strlit("3"); }
        "3"
    } else if d == 4 {
        proof { reveal_strlit("4"); }
        "4"
    } else if d == 5 {
        proof { reveal_strlit("5"); }
        "5"
    } else if d == 6 {
        proof { reveal_strlit("6"); }
        "6"
    } else if d == 7 {
        proof { reveal_strlit("7"); }
        "7"
    } else if d == 8 {
        proof { reveal_strlit("8"); }
        "8"
    } else {
        proof { reveal_strlit("9"); }
        "9"
    }
}

/// Writes `n` in decimal.
pub fn decimal_string(n: u128) -> (text: String)
    ensures
        text@ == decimal_text(n as nat),
    decreases n,
{
    if n < 10 {
        String::from_str(digit_text(n))
    } else {
        let mut text = decimal_string(n / 10);
        text.append(digit_text(n % 10));
        text
    }
}

/// What each new connection is set up with.
#[derive(Debug, Clone, Copy, PartialEq, Eq)]
pub struct ConnectionOptions {
    /// Switch the journal to write-ahead logging, with normal syncing.
    pub enable_wal: bool,
    /// How long, in milliseconds, a statement waits on a locked database.
    pub busy_timeout: Option<u128>,
}

/// The statement that turns on write-ahead logging.
pub open spec fn wal_statement() -> Seq<char> {
    "PRAGMA journal_mode = WAL; PRAGMA synchronous = NORMAL;"@
}

/// The statement that sets the busy timeout to `millis`.
pub open spec fn busy_timeout_statement(millis: nat) -> Seq<char> {
    "PRAGMA busy_timeout = "@ + decimal_text(millis)
}

/// The statements for `options`, in the order they are run.
pub open spec fn connection_statements(enable_wal: bool, busy_timeout: Option<u128>) -> Seq<Seq<char>> {
    let wal: Seq<Seq<char>> = if enable_wal { seq![wal_statement()] } else { Seq::empty() };
    match busy_timeout {
        Some(ms) => wal.push(busy_timeout_statement(ms as nat)),
        None => wal,
    }
}

impl ConnectionOptions {
    /// The batches of SQL to run on a connection as it is acquired, in order;
    /// the first that fails ends the setup.
    pub fn on_acquire(&self) -> (statements: Vec<String>)
        ensures
            statements@.map_values(|s: String| s@) == connection_statements(self.enable_wal, self.busy_timeout),
    {
        let mut statements: Vec<String> = Vec::new();
        if self.enable_wal {
            statements.push(String::from_str("PRAGMA journal_mode = WAL; PRAGMA synchronous = NORMAL;"));
        }
        match self.busy_timeout {
            Some(ms) => {
                let mut text = String::from_str("PRAGMA busy_timeout = ");
                text.append(decimal_string(ms).as_str());
                statements.push(text);
            },
            None => {},
        }
        proof {
            let expected = connection_statements(self.enable_wal, self.busy_timeout);
            assert(statements@.map_values(|s: String| s@) =~= expected);
        }
        statements
    }
}

/// Each option decides its own statement: write-ahead logging first
/// exactly when it is enabled, then the busy timeout exactly when one is set,
/// and nothing else.
pub proof fn lemma_statements_follow_options(enable_wal: bool, busy_timeout: Option<u128>)
    ensures
        connection_statements(enable_wal, busy_timeout) == (if enable_wal {
            seq!["PRAGMA journal_mode = WAL; PRAGMA synchronous = NORMAL;"@]
        } else {
            Seq::<Seq<char>>::empty()
        }) + match busy_timeout {
            Some(ms) => seq!["PRAGMA busy_timeout = "@ + decimal_text(ms as nat)],
            None => Seq::<Seq<char>>::empty(),
        },
{
    let wal: Seq<Seq<char>> = if enable_wal {
        seq![wal_statement()]
    } else {
        Seq::empty()
    };
    match busy_timeout {
        Some(ms) => {
            assert(wal.push(busy_timeout_statement(ms as nat)) =~= wal + seq![busy_timeout_statement(ms as nat)]);
        },
        None => {
            assert(wal =~= wal + Seq::<Seq<char>>::empty());
        },
    }
}

/// The number that decimal text stands for, most significant digit first.
pub open spec fn decimal_value(text: Seq<char>) -> int
    decreases text.len(),
{
    if text.len() == 0 {
        0
    } else {
        decimal_value(text.drop_last()) * 10 + (text.last() as int - '0' as int)
    }
}

/// The decimal text of `n` is made of digits, has no leading zero, and
/// reads back as `n`.
pub proof fn lemma_decimal_text_reads_back(n: nat)
    ensures
        decimal_text(n).len() > 0,
        forall|i: int| 0 <= i < decimal_text(n).len() ==> '0' <= #[trigger] decimal_text(n)[i] <= '9',
        decimal_text(n).len() > 1 ==> decimal_text(n)[0] != '0',
        decimal_value(decimal_text(n)) == n,
    decreases n,
{
    if n >= 10 {
        lemma_decimal_text_reads_back(n / 10);
        let t = decimal_text(n);
        assert(t.drop_last() =~= decimal_text(n / 10));
        assert forall|i: int| 0 <= i < t.len() implies '0' <= #[trigger] t[i] <= '9' by {
            if i < t.len() - 1 {
                assert(t[i] == decimal_text(n / 10)[i]);
            }
        }
        if decimal_text(n / 10).len() == 1 {
            assert(n / 10 < 10) by {
                if n / 10 >= 10 {
                    assert(decimal_text(n / 10) == decimal_text(n / 10 / 10).push(decimal_digit(n / 10 % 10)));
                    lemma_decimal_text_reads_back(n / 10 / 10);
                }
            }
        }
        assert(t[0] == decimal_text(n / 10)[0]);
        let d = (n % 10) as nat;
        assert(t.last() == decimal_digit(d));
        assert(decimal_digit(d) as int == '0' as int + d);
        assert((n / 10) * 10 + d == n);
        assert(decimal_value(t) == decimal_value(decimal_text(n / 10)) * 10 + d);
    } else {
        let t = decimal_text(n);
        assert(t.drop_last() =~= Seq::<char>::empty());
        assert(decimal_digit(n) as int == '0' as int + n);
        assert(decimal_value(t) == decimal_value(t.drop_last()) * 10 + (t.last() as int - '0' as int));
    }
}

} // verus!
