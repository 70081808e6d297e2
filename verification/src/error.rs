//! The error type of the library: a status code (`OSStatus`) and the name of
//! the function that reported it.

use vstd::prelude::*;

verus! {

/// The status code Audio Toolbox uses for an invalid parameter (`paramErr`).
pub const PARAM_ERR: i32 = -50;

/// An error reported by an Audio Toolbox call, or a parameter rejected before one.
///
/// A status of 0 means success; every other status is an error.
#[derive(Debug)]
pub struct Error {
    status: i32,
    function: &'static str,
}

impl Error {
    /// The status code carried by this error.
    pub closed spec fn status_spec(&self) -> i32 {
        self.status
    }

    /// The name of the function that reported this error.
    pub closed spec fn function_spec(&self) -> Seq<char> {
        self.function@
    }

    /// Builds an error from a status code and the name of the reporting function.
    pub fn new(status: i32, function: &'static str) -> (e: Error)
        ensures
            e.status_spec() == status,
            e.function_spec() == function@,
    {
        Error { status, function }
    }

    /// Checks a status code: 0 is success, anything else becomes an error.
    pub fn check(status: i32, function: &'static str) -> (r: Result<(), Error>)
        ensures
            r is Ok <==> status == 0,
            r matches Err(e) ==> e.status_spec() == status && e.function_spec() == function@,
    {
        if status == 0 {
            return Ok(());
        }
        Err(Error { status, function })
    }
}

/// The decimal digit character for `d` (`0 <= d < 10`).
pub open spec fn digit_char(d: nat) -> char {
    if d == 0 { '0' }
    else if d == 1 { '1' }
    else if d == 2 { '2' }
    else if d == 3 { '3' }
    else if d == 4 { '4' }
    else if d == 5 { '5' }
    else if d == 6 { '6' }
    else if d == 7 { '7' }
    else if d == 8 { '8' }
    else { '9' }
}

/// The decimal notation of a natural number, most significant digit first,
/// without leading zeros.
pub open spec fn decimal(n: nat) -> Seq<char>
    decreases n,
{
    if n < 10 {
        seq![digit_char(n)]
    } else {
        decimal(n / 10).push(digit_char(n % 10))
    }
}

/// The decimal notation of an integer, with a leading `-` when it is negative.
pub open spec fn signed_decimal(x: int) -> Seq<char> {
    if x < 0 {
        seq!['-'] + decimal((-x) as nat)
    } else {
        decimal(x as nat)
    }
}

/// The text of an error: the crate's name in brackets, the function and the status.
pub open spec fn error_message(function: Seq<char>, status: i32) -> Seq<char> {
    seq!['['] + "shiguredo_audio_toolbox"@ + seq![']', ' '] + function + "() failed: status="@
        + signed_decimal(status as int)
}

fn digit_str(d: u32) -> (s: &'static str)
    requires
        d < 10,
    ensures
        s@ == seq![digit_char(d as nat)],
{
    proof {
        reveal_strlit("0");
        reveal_strlit("1");
        reveal_strlit("2");
        reveal_strlit("3");
        reveal_strlit("4");
        reveal_strlit("5");
        reveal_strlit("6");
        reveal_strlit("7");
        reveal_strlit("8");
        reveal_strlit("9");
    }
    match d {
        0 => "0",
        1 => "1",
        2 => "2",
        3 => "3",
        4 => "4",
        5 => "5",
        6 => "6",
        7 => "7",
        8 => "8",
        _ => "9",
    }
}

/// Appends the decimal notation of `n` to `out`.
fn push_decimal(out: &mut String, n: u32)
    ensures
        final(out)@ == old(out)@ + decimal(n as nat),
    decreases n,
{
    if n >= 10 {
        push_decimal(out, n / 10);
    }
    out.append(digit_str(n % 10));
    assert(old(out)@ + decimal(n as nat) =~= old(out)@ + (if n >= 10 {
        decimal((n / 10) as nat)
    } else {
        Seq::<char>::empty()
    }) + seq![digit_char((n % 10) as nat)]);
}

impl Error {
    /// The text of this error, `[shiguredo_audio_toolbox] <function>() failed: status=<status>`.
    pub fn to_string(&self) -> (s: String)
        ensures
            s@ == error_message(self.function_spec(), self.status_spec()),
    {
        proof {
            reveal_strlit("[");
            reveal_strlit("] ");
            reveal_strlit("-");
        }
        let mut out = String::new();
        out.append("[");
        out.append("shiguredo_audio_toolbox");
        out.append("] ");
        out.append(self.function);
        out.append("() failed: status=");
        if self.status < 0 {
            out.append("-");
            let magnitude: i64 = -(self.status as i64);
            push_decimal(&mut out, magnitude as u32);
        } else {
            push_decimal(&mut out, self.status as u32);
        }
        assert(out@ =~= error_message(self.function_spec(), self.status_spec()));
        out
    }
}

/// The decimal notation of a number is its digits, most significant first,
/// with no leading zero: a single digit below 10, otherwise the notation of
/// `n / 10` followed by the digit `n % 10`; each digit `d` is the character
/// with code `48 + d`.
pub proof fn law_decimal_digits(n: nat)
    ensures
        n < 10 ==> decimal(n) == seq![(48 + n) as char],
        n >= 10 ==> decimal(n) == decimal(n / 10).push((48 + n % 10) as char),
        decimal(n).len() >= 1,
        decimal(n)[0] == '0' ==> n == 0,
    decreases n,
{
    assert(digit_char(n % 10) == (48 + n % 10) as char);
    if n >= 10 {
        law_decimal_digits(n / 10);
        assert(decimal(n)[0] == decimal(n / 10)[0]);
    }
}

/// An error's text is `[shiguredo_audio_toolbox] `, the function's name,
/// `() failed: status=` and the status in decimal, with `-` before a negative one.
pub proof fn law_error_text(function: Seq<char>, status: i32)
    ensures
        error_message(function, status) == "[shiguredo_audio_toolbox] "@ + function + "() failed: status="@
            + (if status < 0 { seq!['-'] } else { Seq::<char>::empty() })
            + decimal(if status < 0 { (-status) as nat } else { status as nat }),
{
    reveal_strlit("[shiguredo_audio_toolbox] ");
    reveal_strlit("shiguredo_audio_toolbox");
    assert(error_message(function, status) =~= "[shiguredo_audio_toolbox] "@ + function + "() failed: status="@
        + (if status < 0 { seq!['-'] } else { Seq::<char>::empty() })
        + decimal(if status < 0 { (-status) as nat } else { status as nat }));
}

} // verus!
