//! The diagnostic value shared by the scanner and the parser, and its
//! user-facing rendering.

use vstd::prelude::*;
use vstd::string::StringExecFns;

verus! {

/// Mathematical image of an [`Error`]: the line it was raised on, the
/// location context, and the description.
pub struct ErrorModel {
    pub line: nat,
    pub location: Seq<char>,
    pub message: Seq<char>,
}

/// A scan or parse diagnostic. It is an immutable value: it carries no
/// recovery state, and lower layers return it up the call chain rather
/// than printing it.
#[derive(Debug, Clone)]
pub struct Error {
    line: usize,
    location: String,
    message: String,
}

impl View for Error {
    type V = ErrorModel;

    closed spec fn view(&self) -> ErrorModel {
        ErrorModel { line: self.line as nat, location: self.location@, message: self.message@ }
    }
}

impl Error {
    pub fn new(message: &str, location: &str, line: usize) -> (e: Error)
        ensures
            e@ == (ErrorModel { line: line as nat, location: location@, message: message@ }),
    {
        Error { message: String::from_str(message), location: String::from_str(location), line }
    }
}

/// The decimal digit `d` as a character; meaningful for `d < 10`.
pub open spec fn digit_char(d: nat) -> char {
    if d == 0 { '0' }
    else if d == 1 { '1' }
    else if d == 2 { '2' }
    else if d == 3 { '3' }
    else if d == 4 { '4' }
    else if d == 5 { '5' }
    else if d == 6 { '6' }
    else if d == 7 { '7' }
    else if d == 8 { '8' }
    else { '9' }
}

/// The usual decimal rendering of `n`, with no leading zeros (except for
/// `n == 0` itself).
pub open spec fn dec_str(n: nat) -> Seq<char>
    decreases n,
{
    if n < 10 {
        seq![digit_char(n)]
    } else {
        dec_str(n / 10) + seq![digit_char(n % 10)]
    }
}

fn digit_str(d: usize) -> (r: &'static str)
    requires
        d < 10,
    ensures
        r@ == seq![digit_char(d as nat)],
{
    proof {
        reveal_strlit("0");
        reveal_strlit("1");
        reveal_strlit("2");
        reveal_strlit("3");
        reveal_strlit("4");
        reveal_strlit("5");
        reveal_strlit("6");
        reveal_strlit("7");
        reveal_strlit("8");
        reveal_strlit("9");
    }
    let r = if d == 0 { "0" }
    else if d == 1 { "1" }
    else if d == 2 { "2" }
    else if d == 3 { "3" }
    else if d == 4 { "4" }
    else if d == 5 { "5" }
    else if d == 6 { "6" }
    else if d == 7 { "7" }
    else if d == 8 { "8" }
    else { "9" };
    proof {
        assert(r@ =~= seq![digit_char(d as nat)]);
    }
    r
}

/// Renders `n` in decimal.
pub fn usize_to_decimal(n: usize) -> (r: String)
    ensures
        r@ == dec_str(n as nat),
    decreases n,
{
    if n < 10 {
        String::from_str(digit_str(n))
    } else {
        let mut s = usize_to_decimal(n / 10);
        s.append(digit_str(n % 10));
        s
    }
}

/// The single-line user-facing text of a diagnostic:
/// `[line {line}] Error {location}: {message}`.
pub open spec fn error_text(e: ErrorModel) -> Seq<char> {
    "[line "@ + dec_str(e.line) + "] Error "@ + e.location + ": "@ + e.message
}

impl Error {
    /// The user-facing diagnostic line for this error.
    pub fn render(&self) -> (r: String)
        ensures
            r@ == error_text(self@),
    {
        let mut s = String::from_str("[line ");
        let num = usize_to_decimal(self.line);
        s.append(num.as_str());
        s.append("] Error ");
        s.append(self.location.as_str());
        s.append(": ");
        s.append(self.message.as_str());
        proof {
            assert(s@ =~= error_text(self@));
        }
        s
    }
}

} // verus!
