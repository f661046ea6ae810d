use vstd::prelude::*;
use crate::config::PathKind;
use crate::text::{decimal_text, digit_char};

verus! {

/// The lowest and highest port accepted on the command line.
pub const PORT_RANGE_START: usize = 8000;
pub const PORT_RANGE_END: usize = 65535;
/// The lowest and highest poll rate accepted on the command line.
pub const POLL_RANGE_START: usize = 1;
pub const POLL_RANGE_END: usize = 1000;

/// How much the program logs.
#[derive(Debug, Clone, Copy, PartialEq, Eq)]
pub enum LogLevel {
    Off,
    Error,
    Warn,
    Info,
    Debug,
    Trace,
}

/// The command line options.
#[derive(Debug, Clone)]
pub struct Cli {
    /// Port of the web server (default 8000, accepted by `port_in_range`).
    pub port: u16,
    /// Directory of the web client (default "./web", accepted by `valid_path`).
    pub web_path: String,
    /// Poll rate in Hz (default 60, accepted by `poll_in_range`).
    pub poll_rate: u16,
    /// Log level (default `Warn`).
    pub loglevel: LogLevel,
}

pub open spec fn is_digit(c: char) -> bool {
    '0' <= c <= '9'
}

/// The number that a string of decimal digits writes.
pub open spec fn digits_value(d: Seq<char>) -> int
    decreases d.len(),
{
    if d.len() == 0 {
        0
    } else {
        digits_value(d.drop_last()) * 10 + (d.last() as int - '0' as int)
    }
}

/// The text after an optional leading `+`.
pub open spec fn without_plus(s: Seq<char>) -> Seq<char> {
    if s.len() > 0 && s[0] == '+' {
        s.drop_first()
    } else {
        s
    }
}

/// One or more characters, all decimal digits.
pub open spec fn all_digits(d: Seq<char>) -> bool {
    d.len() > 0 && forall|i: int| 0 <= i < d.len() ==> is_digit(#[trigger] d[i])
}

/// What `str::parse::<usize>` gives: the text must be an optional `+`
/// followed by one or more decimal digits, and the number must fit in a
/// `usize`.
pub open spec fn usize_from_text(s: Seq<char>) -> Option<usize> {
    if all_digits(without_plus(s)) && digits_value(without_plus(s)) <= usize::MAX {
        Some(digits_value(without_plus(s)) as usize)
    } else {
        None
    }
}

/// The command line accepts web ports 8000 to 65535 and poll rates 1 to
/// 1000, both ends included.
pub proof fn lemma_command_line_ranges()
    ensures
        PORT_RANGE_START == 8000,
        PORT_RANGE_END == 65535,
        POLL_RANGE_START == 1,
        POLL_RANGE_END == 1000,
{
}

/// A leading `+` is allowed once and changes nothing; a leading `-`, an
/// empty text and a non-digit character make the text no number.
pub proof fn lemma_signs_and_digits(t: Seq<char>)
    ensures
        t.len() > 0 && t[0] != '+' ==> usize_from_text(seq!['+'] + t) == usize_from_text(t),
        t.len() > 0 && t[0] == '-' ==> usize_from_text(t) is None,
        usize_from_text(Seq::<char>::empty()) is None,
        usize_from_text(seq!['+']) is None,
        (exists|i: int| 0 <= i < t.len() && t[i] != '+' && !is_digit(#[trigger] t[i])) ==> usize_from_text(t) is None,
{
    if t.len() > 0 && t[0] != '+' {
        assert((seq!['+'] + t).drop_first() =~= t);
    }
    if t.len() > 0 && t[0] == '-' {
        assert(!is_digit(without_plus(t)[0]));
    }
    assert(seq!['+'].drop_first() =~= Seq::<char>::empty());
    if exists|i: int| 0 <= i < t.len() && t[i] != '+' && !is_digit(#[trigger] t[i]) {
        let i = choose|i: int| 0 <= i < t.len() && t[i] != '+' && !is_digit(#[trigger] t[i]);
        if t.len() > 0 && t[0] == '+' {
            assert(i > 0);
            assert(without_plus(t)[i - 1] == t[i]);
            assert(!is_digit(without_plus(t)[i - 1]));
        } else {
            assert(!is_digit(without_plus(t)[i]));
        }
    }
}

/// The decimal form of a number is a run of digits that writes it.
proof fn lemma_decimal_digits(n: nat)
    ensures
        all_digits(decimal_text(n)),
        digits_value(decimal_text(n)) == n,
    decreases n,
{
    if n < 10 {
        let t = decimal_text(n);
        assert(t == seq![digit_char(n)]);
        assert(t.drop_last() =~= Seq::<char>::empty());
        assert(digit_char(n) as int == n + 48);
        assert('0' as int == 48);
        assert(digits_value(t) == digits_value(t.drop_last()) * 10 + (t.last() as int - '0' as int));
        assert(digits_value(Seq::<char>::empty()) == 0);
    } else {
        lemma_decimal_digits(n / 10);
        let t = decimal_text(n / 10);
        let c = digit_char(n % 10);
        assert(decimal_text(n) == t.push(c));
        assert(t.push(c).drop_last() =~= t);
        assert(c as int == n % 10 + 48);
        assert(is_digit(c));
        assert forall|i: int| 0 <= i < t.push(c).len() implies is_digit(#[trigger] t.push(c)[i]) by {
            if i < t.len() {
                assert(t.push(c)[i] == t[i]);
            }
        }
        assert('0' as int == 48);
        assert(digits_value(t.push(c)) == digits_value(t) * 10 + (c as int - '0' as int));
        assert((n / 10) * 10 + n % 10 == n) by (nonlinear_arith);
    }
}

/// Parsing the decimal form of a number gives the number back: numbers the
/// library writes are read back unchanged.
pub proof fn lemma_decimal_reads_back(n: nat)
    requires
        n <= usize::MAX,
    ensures
        usize_from_text(decimal_text(n)) == Some(n as usize),
{
    lemma_decimal_digits(n);
    let t = decimal_text(n);
    assert(t.len() > 0 && is_digit(t[0]));
    assert(without_plus(t) == t);
}

/// Calls `str::parse::<usize>`. Its documentation states that the text must
/// be an optional `+` sign followed by only digits, and that a number too
/// large for the type is an error: the contract says that the result is
/// `Some` of the number exactly then.
#[verifier::external_body]
fn parse_usize(s: &str) -> (r: Option<usize>)
    ensures
        r == usize_from_text(s@),
{
    s.parse::<usize>().ok()
}

/// The message for text that is not a number: "`{s}` isn't {what}".
fn not_a_number(s: &str, what: &str) -> (r: String)
    ensures
        r@ == "`"@ + s@ + "` isn't "@ + what@,
{
    let mut m = String::from_str("`");
    m.append(s);
    m.append("` isn't ");
    m.append(what);
    m
}

/// Parses a web server port: a number in 8000..=65535.
pub fn port_in_range(s: &str) -> (r: Result<u16, String>)
    ensures
        match usize_from_text(s@) {
            None => r matches Err(m) && m@ == "`"@ + s@ + "` isn't "@ + "a port number"@,
            Some(n) => if PORT_RANGE_START <= n <= PORT_RANGE_END {
                r == Ok::<u16, String>(n as u16)
            } else {
                r matches Err(m) && m@ == "port not in range 8000-65535"@
            },
        },
{
    let port = match parse_usize(s) {
        Some(p) => p,
        None => {
            return Err(not_a_number(s, "a port number"));
        },
    };
    if PORT_RANGE_START <= port && port <= PORT_RANGE_END {
        Ok(port as u16)
    } else {
        Err(String::from_str("port not in range 8000-65535"))
    }
}

/// Accepts the web path if it names a directory; `kind` says what is found
/// on disk at `s`.
pub fn valid_path(s: &str, kind: PathKind) -> (r: Result<String, String>)
    ensures
        kind == PathKind::Missing ==> (r matches Err(m) && m@ == "Path does not exist"@),
        kind == PathKind::NotDirectory ==> (r matches Err(m) && m@
            == "Path is not a directory"@),
        kind == PathKind::Directory ==> (r matches Ok(p) && p@ == s@),
{
    match kind {
        PathKind::Missing => Err(String::from_str("Path does not exist")),
        PathKind::NotDirectory => Err(String::from_str("Path is not a directory")),
        PathKind::Directory => Ok(s.to_owned()),
    }
}

/// Parses a poll rate: a number in 1..=1000.
pub fn poll_in_range(s: &str) -> (r: Result<u16, String>)
    ensures
        match usize_from_text(s@) {
            None => r matches Err(m) && m@ == "`"@ + s@ + "` isn't "@ + "a valid number"@,
            Some(n) => if POLL_RANGE_START <= n <= POLL_RANGE_END {
                r == Ok::<u16, String>(n as u16)
            } else {
                r matches Err(m) && m@ == "not in range 1-1000"@
            },
        },
{
    let rate = match parse_usize(s) {
        Some(p) => p,
        None => {
            return Err(not_a_number(s, "a valid number"));
        },
    };
    if POLL_RANGE_START <= rate && rate <= POLL_RANGE_END {
        Ok(rate as u16)
    } else {
        Err(String::from_str("not in range 1-1000"))
    }
}

} // verus!
