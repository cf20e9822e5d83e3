//! Translation of native status codes into a result type, and the display
//! form of a failure: the numeric code together with its description.

use vstd::prelude::*;
use vstd::string::*;

verus! {

/// The status code the native layer returns for a call that succeeded.
pub const DOCA_SUCCESS: u32 = 0;

/// A failed native call, carrying the status code the call returned.
///
/// No `Error` is ever constructed except as the direct translation of a
/// native call's return code by [`errcode_to_result`]; the wrapper never
/// synthesizes codes of its own.
#[derive(Debug, Clone, Copy)]
pub struct Error {
    code: u32,
}

/// Translates a native status code: the success code becomes `Ok`, every
/// other code becomes an [`Error`] carrying exactly that code.
pub fn errcode_to_result(code: u32) -> (r: Result<(), Error>)
    ensures
        r is Ok <==> code == DOCA_SUCCESS,
        r is Err ==> r->Err_0.spec_code() == code,
{
    if code == DOCA_SUCCESS {
        Ok(())
    } else {
        Err(Error { code })
    }
}

/// The description text of a status code, as the native error-string lookup
/// reports it. Every code, recognized or not, has a non-empty description.
pub open spec fn description_of(code: u32) -> Seq<char> {
    if code == 0 {
        "success"@
    } else if code == 1 {
        "unknown error"@
    } else if code == 2 {
        "operation not permitted"@
    } else if code == 3 {
        "resource in use"@
    } else if code == 4 {
        "operation not supported"@
    } else if code == 5 {
        "resource temporarily unavailable"@
    } else if code == 6 {
        "invalid input"@
    } else if code == 7 {
        "memory allocation failure"@
    } else if code == 8 {
        "initialization failure"@
    } else if code == 9 {
        "timeout expired"@
    } else if code == 10 {
        "shutdown in progress"@
    } else if code == 11 {
        "connection reset"@
    } else if code == 12 {
        "connection aborted"@
    } else if code == 13 {
        "connection in progress"@
    } else if code == 14 {
        "not connected"@
    } else if code == 15 {
        "lock not acquired"@
    } else if code == 16 {
        "entry not found"@
    } else if code == 17 {
        "input or output failure"@
    } else if code == 18 {
        "bad state"@
    } else if code == 19 {
        "unsupported version"@
    } else if code == 20 {
        "operating system failure"@
    } else if code == 21 {
        "driver failure"@
    } else if code == 22 {
        "unexpected condition"@
    } else {
        "unrecognized status code"@
    }
}

/// The display form of a failure with the given code: the fixed prefix, the
/// code's decimal digits, a separator, and the code's description.
pub open spec fn message_of(code: u32) -> Seq<char> {
    "error code "@ + decimal_of(code as nat) + ": "@ + description_of(code)
}

impl Error {
    /// The status code this failure carries.
    pub closed spec fn spec_code(&self) -> u32 {
        self.code
    }

    /// The numeric status code the native call returned.
    pub fn code(&self) -> (c: u32)
        ensures
            c == self.spec_code(),
    {
        self.code
    }

    /// The description of this failure's code, from the modeled native
    /// error-string lookup.
    pub fn description(&self) -> (r: &'static str)
        ensures
            r@ == description_of(self.spec_code()),
    {
        error_description(self.code)
    }

    /// The full display form: numeric code and description together.
    pub fn message(&self) -> (r: String)
        ensures
            r@ == message_of(self.spec_code()),
    {
        let mut s = String::from_str("error code ");
        let digits = u32_decimal(self.code);
        s.append(digits.as_str());
        s.append(": ");
        s.append(error_description(self.code));
        s
    }
}

/// The description lookup itself: one text per recognized status code, a
/// fallback for the rest.
fn error_description(code: u32) -> (r: &'static str)
    ensures
        r@ == description_of(code),
{
    if code == 0 {
        "success"
    } else if code == 1 {
        "unknown error"
    } else if code == 2 {
        "operation not permitted"
    } else if code == 3 {
        "resource in use"
    } else if code == 4 {
        "operation not supported"
    } else if code == 5 {
        "resource temporarily unavailable"
    } else if code == 6 {
        "invalid input"
    } else if code == 7 {
        "memory allocation failure"
    } else if code == 8 {
        "initialization failure"
    } else if code == 9 {
        "timeout expired"
    } else if code == 10 {
        "shutdown in progress"
    } else if code == 11 {
        "connection reset"
    } else if code == 12 {
        "connection aborted"
    } else if code == 13 {
        "connection in progress"
    } else if code == 14 {
        "not connected"
    } else if code == 15 {
        "lock not acquired"
    } else if code == 16 {
        "entry not found"
    } else if code == 17 {
        "input or output failure"
    } else if code == 18 {
        "bad state"
    } else if code == 19 {
        "unsupported version"
    } else if code == 20 {
        "operating system failure"
    } else if code == 21 {
        "driver failure"
    } else if code == 22 {
        "unexpected condition"
    } else {
        "unrecognized status code"
    }
}

/// The character of one decimal digit.
pub open spec fn digit_char(d: int) -> char {
    if d == 0 {
        '0'
    } else if d == 1 {
        '1'
    } else if d == 2 {
        '2'
    } else if d == 3 {
        '3'
    } else if d == 4 {
        '4'
    } else if d == 5 {
        '5'
    } else if d == 6 {
        '6'
    } else if d == 7 {
        '7'
    } else if d == 8 {
        '8'
    } else {
        '9'
    }
}

/// The decimal digits of a number, most significant first, with no leading
/// zero except for the number zero itself.
pub open spec fn decimal_of(n: nat) -> Seq<char>
    decreases n,
{
    if n < 10 {
        seq![digit_char(n as int)]
    } else {
        decimal_of(n / 10).push(digit_char((n % 10) as int))
    }
}

/// One decimal digit as a string slice.
fn digit_str(d: u32) -> (r: &'static str)
    requires
        d < 10,
    ensures
        r@ == seq![digit_char(d as int)],
{
    proof {
        reveal_strlit("0");
        reveal_strlit("1");
        reveal_strlit("2");
        reveal_strlit("3");
        reveal_strlit("4");
        reveal_strlit("5");
        reveal_strlit("6");
        reveal_strlit("7");
        reveal_strlit("8");
        reveal_strlit("9");
    }
    let r: &'static str = if d == 0 {
        "0"
    } else if d == 1 {
        "1"
    } else if d == 2 {
        "2"
    } else if d == 3 {
        "3"
    } else if d == 4 {
        "4"
    } else if d == 5 {
        "5"
    } else if d == 6 {
        "6"
    } else if d == 7 {
        "7"
    } else if d == 8 {
        "8"
    } else {
        "9"
    };
    proof {
        assert(r@ =~= seq![digit_char(d as int)]);
    }
    r
}

/// The decimal rendering of a number.
pub fn u32_decimal(n: u32) -> (r: String)
    ensures
        r@ == decimal_of(n as nat),
    decreases n,
{
    if n < 10 {
        String::from_str(digit_str(n))
    } else {
        let mut s = u32_decimal(n / 10);
        s.append(digit_str(n % 10));
        proof {
            assert(s@ =~= decimal_of(n as nat));
        }
        s
    }
}

/// Law: every status code has a non-empty description, so the display form of
/// every failure embeds readable text beside the numeric code.
pub proof fn lemma_description_nonempty(code: u32)
    ensures
        description_of(code).len() > 0,
{
    reveal_strlit("success");
    reveal_strlit("unknown error");
    reveal_strlit("operation not permitted");
    reveal_strlit("resource in use");
    reveal_strlit("operation not supported");
    reveal_strlit("resource temporarily unavailable");
    reveal_strlit("invalid input");
    reveal_strlit("memory allocation failure");
    reveal_strlit("initialization failure");
    reveal_strlit("timeout expired");
    reveal_strlit("shutdown in progress");
    reveal_strlit("connection reset");
    reveal_strlit("connection aborted");
    reveal_strlit("connection in progress");
    reveal_strlit("not connected");
    reveal_strlit("lock not acquired");
    reveal_strlit("entry not found");
    reveal_strlit("input or output failure");
    reveal_strlit("bad state");
    reveal_strlit("unsupported version");
    reveal_strlit("operating system failure");
    reveal_strlit("driver failure");
    reveal_strlit("unexpected condition");
    reveal_strlit("unrecognized status code");
}

/// Law: the display form of every failure is exactly the fixed prefix, the
/// code's decimal digits (at least one), the separator, and the code's
/// non-empty description.
pub proof fn lemma_message_parts(code: u32)
    ensures
        message_of(code) == "error code "@ + decimal_of(code as nat) + ": "@ + description_of(
            code,
        ),
        decimal_of(code as nat).len() > 0,
        description_of(code).len() > 0,
{
    lemma_description_nonempty(code);
}

} // verus!
