use vstd::prelude::*;
use vstd::string::StringExecFns;

verus! {

/// Errors reported by libspeer, plus the two that the wrapper adds itself.
#[derive(Debug, Clone, Copy, PartialEq, Eq, Structural)]
pub enum Error {
    InvalidParam,
    NoMemory,
    Network,
    Crypto,
    Handshake,
    Timeout,
    PeerNotFound,
    StreamClosed,
    BufferTooSmall,
    Null,
    InteriorNul,
    Unknown(i32),
}

/// The error that a negative libspeer status code stands for.
pub open spec fn error_for_code(code: i32) -> Error {
    if code == -1 {
        Error::InvalidParam
    } else if code == -2 {
        Error::NoMemory
    } else if code == -3 {
        Error::Network
    } else if code == -4 {
        Error::Crypto
    } else if code == -5 {
        Error::Handshake
    } else if code == -6 {
        Error::Timeout
    } else if code == -7 {
        Error::PeerNotFound
    } else if code == -8 {
        Error::StreamClosed
    } else if code == -9 {
        Error::BufferTooSmall
    } else {
        Error::Unknown(code)
    }
}

impl Error {
    /// Maps a libspeer status code to its error.
    pub fn from_code(code: i32) -> (e: Error)
        ensures
            e == error_for_code(code),
            e != Error::Null,
            e != Error::InteriorNul,
            e matches Error::Unknown(c) ==> c == code && !(-9 <= code <= -1),
            code == -1 ==> e == Error::InvalidParam,
            code == -2 ==> e == Error::NoMemory,
            code == -3 ==> e == Error::Network,
            code == -4 ==> e == Error::Crypto,
            code == -5 ==> e == Error::Handshake,
            code == -6 ==> e == Error::Timeout,
            code == -7 ==> e == Error::PeerNotFound,
            code == -8 ==> e == Error::StreamClosed,
            code == -9 ==> e == Error::BufferTooSmall,
            (code < -9 || code > -1) ==> e == Error::Unknown(code),
    {
        match code {
            -1 => Error::InvalidParam,
            -2 => Error::NoMemory,
            -3 => Error::Network,
            -4 => Error::Crypto,
            -5 => Error::Handshake,
            -6 => Error::Timeout,
            -7 => Error::PeerNotFound,
            -8 => Error::StreamClosed,
            -9 => Error::BufferTooSmall,
            other => Error::Unknown(other),
        }
    }
}

/// A status code is a success exactly when it is not negative.
pub fn result_from_code(code: i32) -> (r: Result<(), Error>)
    ensures
        r == (if code >= 0 { Ok(()) } else { Err(error_for_code(code)) }),
{
    if code >= 0 {
        Ok(())
    } else {
        Err(Error::from_code(code))
    }
}

/// The result of a libspeer read or write: a negative value is a status
/// code, any other value the number of bytes moved.
pub fn count_from_code(code: i32) -> (r: Result<usize, Error>)
    ensures
        code >= 0 ==> r == Ok::<usize, Error>(code as usize),
        code < 0 ==> r == Err::<usize, Error>(error_for_code(code)),
{
    if code < 0 {
        Err(Error::from_code(code))
    } else {
        Ok(code as usize)
    }
}

/// Distinct status codes give distinct errors: the mapping loses nothing
/// of the code it was given.
pub proof fn lemma_error_for_code_injective(a: i32, b: i32)
    requires
        error_for_code(a) == error_for_code(b),
    ensures
        a == b,
{
}

/// Trusted: std's `String::push` appends the character `ch` to the end of
/// the string, as its documentation says; vstd gives it no specification.
pub assume_specification[ String::push ](s: &mut String, ch: char)
    ensures
        final(s)@ == old(s)@.push(ch),
;

/// The character of a decimal digit.
pub open spec fn decimal_digit(d: int) -> char {
    if d == 0 {
        '0'
    } else if d == 1 {
        '1'
    } else if d == 2 {
        '2'
    } else if d == 3 {
        '3'
    } else if d == 4 {
        '4'
    } else if d == 5 {
        '5'
    } else if d == 6 {
        '6'
    } else if d == 7 {
        '7'
    } else if d == 8 {
        '8'
    } else {
        '9'
    }
}

/// The decimal digits of a natural number, most significant first, without
/// leading zeros.
pub open spec fn decimal_digits(n: nat) -> Seq<char>
    decreases n,
{
    if n < 10 {
        seq![decimal_digit(n as int)]
    } else {
        decimal_digits(n / 10).push(decimal_digit((n % 10) as int))
    }
}

/// The decimal text of an integer, with a leading minus sign when negative.
pub open spec fn decimal(n: int) -> Seq<char> {
    if n < 0 {
        seq!['-'] + decimal_digits((-n) as nat)
    } else {
        decimal_digits(n as nat)
    }
}

fn digit_char(d: u32) -> (c: char)
    requires
        d < 10,
    ensures
        c == decimal_digit(d as int),
{
    match d {
        0 => '0',
        1 => '1',
        2 => '2',
        3 => '3',
        4 => '4',
        5 => '5',
        6 => '6',
        7 => '7',
        8 => '8',
        _ => '9',
    }
}

fn push_decimal_digits(s: &mut String, n: u32)
    ensures
        final(s)@ == old(s)@ + decimal_digits(n as nat),
    decreases n,
{
    if n >= 10 {
        push_decimal_digits(s, n / 10);
    }
    s.push(digit_char(n % 10));
    assert(s@ =~= old(s)@ + decimal_digits(n as nat)) by {
        if n >= 10 {
            assert(decimal_digits(n as nat) == decimal_digits((n / 10) as nat).push(
                decimal_digit((n % 10) as int),
            ));
        }
    }
}

/// Appends the decimal text of `n` to `s`.
fn push_decimal(s: &mut String, n: i32)
    ensures
        final(s)@ == old(s)@ + decimal(n as int),
{
    if n < 0 {
        s.push('-');
        let magnitude: u32 = (0i64 - (n as i64)) as u32;
        push_decimal_digits(s, magnitude);
    } else {
        push_decimal_digits(s, n as u32);
    }
}

/// The message that describes an error.
pub open spec fn error_message(e: Error) -> Seq<char> {
    match e {
        Error::InvalidParam => "invalid parameter"@,
        Error::NoMemory => "out of memory"@,
        Error::Network => "network error"@,
        Error::Crypto => "crypto error"@,
        Error::Handshake => "handshake error"@,
        Error::Timeout => "timeout"@,
        Error::PeerNotFound => "peer not found"@,
        Error::StreamClosed => "stream closed"@,
        Error::BufferTooSmall => "buffer too small"@,
        Error::Null => "speer returned a null pointer"@,
        Error::InteriorNul => "string contains an interior NUL byte"@,
        Error::Unknown(code) => "unknown speer error code "@ + decimal(code as int),
    }
}

impl Error {
    /// The human-readable message of the error.
    pub fn to_string(&self) -> (s: String)
        ensures
            s@ == error_message(*self),
            *self is InvalidParam ==> s@ == "invalid parameter"@,
            *self is NoMemory ==> s@ == "out of memory"@,
            *self is Network ==> s@ == "network error"@,
            *self is Crypto ==> s@ == "crypto error"@,
            *self is Handshake ==> s@ == "handshake error"@,
            *self is Timeout ==> s@ == "timeout"@,
            *self is PeerNotFound ==> s@ == "peer not found"@,
            *self is StreamClosed ==> s@ == "stream closed"@,
            *self is BufferTooSmall ==> s@ == "buffer too small"@,
            *self is Null ==> s@ == "speer returned a null pointer"@,
            *self is InteriorNul ==> s@ == "string contains an interior NUL byte"@,
            (*self matches Error::Unknown(c) ==> s@ == "unknown speer error code "@ + decimal(c as int)),
    {
        match self {
            Error::InvalidParam => String::from_str("invalid parameter"),
            Error::NoMemory => String::from_str("out of memory"),
            Error::Network => String::from_str("network error"),
            Error::Crypto => String::from_str("crypto error"),
            Error::Handshake => String::from_str("handshake error"),
            Error::Timeout => String::from_str("timeout"),
            Error::PeerNotFound => String::from_str("peer not found"),
            Error::StreamClosed => String::from_str("stream closed"),
            Error::BufferTooSmall => String::from_str("buffer too small"),
            Error::Null => String::from_str("speer returned a null pointer"),
            Error::InteriorNul => String::from_str("string contains an interior NUL byte"),
            Error::Unknown(code) => {
                let mut s = String::from_str("unknown speer error code ");
                push_decimal(&mut s, *code);
                s
            },
        }
    }
}

/// Every character of the decimal digits of a number is a digit.
proof fn lemma_decimal_digits_are_digits(n: nat)
    ensures
        decimal_digits(n).len() >= 1,
        n < 10 ==> decimal_digits(n).len() == 1,
        n >= 10 ==> decimal_digits(n).len() >= 2,
        forall|j: int|
            0 <= j < decimal_digits(n).len() ==> '0' <= #[trigger] decimal_digits(n)[j] <= '9',
    decreases n,
{
    if n >= 10 {
        lemma_decimal_digits_are_digits(n / 10);
    }
}

/// Distinct digit values have distinct digit characters.
proof fn lemma_decimal_digit_injective(a: int, b: int)
    requires
        0 <= a < 10,
        0 <= b < 10,
        decimal_digit(a) == decimal_digit(b),
    ensures
        a == b,
{
}

/// Distinct natural numbers have distinct decimal digits.
proof fn lemma_decimal_digits_injective(n: nat, m: nat)
    requires
        decimal_digits(n) == decimal_digits(m),
    ensures
        n == m,
    decreases n,
{
    lemma_decimal_digits_are_digits(n);
    lemma_decimal_digits_are_digits(m);
    if n >= 10 && m >= 10 {
        let dn = decimal_digits(n);
        let dm = decimal_digits(m);
        assert(dn.last() == decimal_digit((n % 10) as int));
        assert(dm.last() == decimal_digit((m % 10) as int));
        lemma_decimal_digit_injective((n % 10) as int, (m % 10) as int);
        assert(dn.drop_last() =~= decimal_digits(n / 10));
        assert(dm.drop_last() =~= decimal_digits(m / 10));
        lemma_decimal_digits_injective(n / 10, m / 10);
        assert(n == 10 * (n / 10) + n % 10);
        assert(m == 10 * (m / 10) + m % 10);
    } else if n < 10 && m < 10 {
        assert(decimal_digits(n)[0] == decimal_digit(n as int));
        assert(decimal_digits(m)[0] == decimal_digit(m as int));
        lemma_decimal_digit_injective(n as int, m as int);
    }
}

/// The decimal text of an integer is never empty.
proof fn lemma_decimal_nonempty(n: int)
    ensures
        decimal(n).len() >= 1,
{
    if n < 0 {
        lemma_decimal_digits_are_digits((-n) as nat);
    } else {
        lemma_decimal_digits_are_digits(n as nat);
    }
}

/// Distinct integers have distinct decimal texts.
pub proof fn lemma_decimal_injective(a: int, b: int)
    requires
        decimal(a) == decimal(b),
    ensures
        a == b,
{
    if a < 0 {
        lemma_decimal_digits_are_digits((-a) as nat);
    } else {
        lemma_decimal_digits_are_digits(a as nat);
    }
    if b < 0 {
        lemma_decimal_digits_are_digits((-b) as nat);
    } else {
        lemma_decimal_digits_are_digits(b as nat);
    }
    assert(decimal(a)[0] == decimal(b)[0]);
    if a < 0 {
        assert(decimal(a)[0] == '-');
    } else {
        assert(decimal(a)[0] == decimal_digits(a as nat)[0]);
    }
    if b < 0 {
        assert(decimal(b)[0] == '-');
    } else {
        assert(decimal(b)[0] == decimal_digits(b as nat)[0]);
    }
    if a < 0 && b < 0 {
        assert(decimal(a).skip(1) =~= decimal_digits((-a) as nat));
        assert(decimal(b).skip(1) =~= decimal_digits((-b) as nat));
        lemma_decimal_digits_injective((-a) as nat, (-b) as nat);
    } else if a >= 0 && b >= 0 {
        lemma_decimal_digits_injective(a as nat, b as nat);
    }
}

/// The first character and the length of each message: no two known
/// errors share both, and only unknown errors start with `u`.
proof fn lemma_error_message_head(e: Error)
    ensures
        e is InvalidParam ==> error_message(e)[0] == 'i' && error_message(e).len() == 17,
        e is NoMemory ==> error_message(e)[0] == 'o' && error_message(e).len() == 13,
        e is Network ==> error_message(e)[0] == 'n' && error_message(e).len() == 13,
        e is Crypto ==> error_message(e)[0] == 'c' && error_message(e).len() == 12,
        e is Handshake ==> error_message(e)[0] == 'h' && error_message(e).len() == 15,
        e is Timeout ==> error_message(e)[0] == 't' && error_message(e).len() == 7,
        e is PeerNotFound ==> error_message(e)[0] == 'p' && error_message(e).len() == 14,
        e is StreamClosed ==> error_message(e)[0] == 's' && error_message(e).len() == 13,
        e is BufferTooSmall ==> error_message(e)[0] == 'b' && error_message(e).len() == 16,
        e is Null ==> error_message(e)[0] == 's' && error_message(e).len() == 29,
        e is InteriorNul ==> error_message(e)[0] == 's' && error_message(e).len() == 36,
        e is Unknown ==> error_message(e)[0] == 'u' && error_message(e).len() > 25,
{
    let m = error_message(e);
    match e {
        Error::InvalidParam => {
            reveal_strlit("invalid parameter");
            assert(m[0] == 'i' && m.len() == 17);
        },
        Error::NoMemory => {
            reveal_strlit("out of memory");
            assert(m[0] == 'o' && m.len() == 13);
        },
        Error::Network => {
            reveal_strlit("network error");
            assert(m[0] == 'n' && m.len() == 13);
        },
        Error::Crypto => {
            reveal_strlit("crypto error");
            assert(m[0] == 'c' && m.len() == 12);
        },
        Error::Handshake => {
            reveal_strlit("handshake error");
            assert(m[0] == 'h' && m.len() == 15);
        },
        Error::Timeout => {
            reveal_strlit("timeout");
            assert(m[0] == 't' && m.len() == 7);
        },
        Error::PeerNotFound => {
            reveal_strlit("peer not found");
            assert(m[0] == 'p' && m.len() == 14);
        },
        Error::StreamClosed => {
            reveal_strlit("stream closed");
            assert(m[0] == 's' && m.len() == 13);
        },
        Error::BufferTooSmall => {
            reveal_strlit("buffer too small");
            assert(m[0] == 'b' && m.len() == 16);
        },
        Error::Null => {
            reveal_strlit("speer returned a null pointer");
            assert(m[0] == 's' && m.len() == 29);
        },
        Error::InteriorNul => {
            reveal_strlit("string contains an interior NUL byte");
            assert(m[0] == 's' && m.len() == 36);
        },
        Error::Unknown(c) => {
            reveal_strlit("unknown speer error code ");
            lemma_decimal_nonempty(c as int);
            assert(m[0] == 'u');
        },
    }
}

/// Distinct errors have distinct messages: every variant, and every code of
/// an unknown error, reads differently.
pub proof fn lemma_error_message_injective(e1: Error, e2: Error)
    requires
        error_message(e1) == error_message(e2),
    ensures
        e1 == e2,
{
    lemma_error_message_head(e1);
    lemma_error_message_head(e2);
    if let Error::Unknown(c1) = e1 {
        if let Error::Unknown(c2) = e2 {
            reveal_strlit("unknown speer error code ");
            let prefix = "unknown speer error code "@;
            assert(error_message(e1).skip(prefix.len() as int) =~= decimal(c1 as int));
            assert(error_message(e2).skip(prefix.len() as int) =~= decimal(c2 as int));
            lemma_decimal_injective(c1 as int, c2 as int);
        }
    }
}

} // verus!
