//! Rendering a dispatch outcome as the response text the session shows:
//! a status line, a blank line, and the body — re-indented when it parses
//! as JSON, verbatim when it does not — or an error line for a failed send
//! or a failed body read.

use vstd::prelude::*;
use crate::text::chars_to_string;

verus! {

/// The digit character for a value 0 through 9.
pub open spec fn digit_char(d: int) -> char {
    if d == 0 {
        '0'
    } else if d == 1 {
        '1'
    } else if d == 2 {
        '2'
    } else if d == 3 {
        '3'
    } else if d == 4 {
        '4'
    } else if d == 5 {
        '5'
    } else if d == 6 {
        '6'
    } else if d == 7 {
        '7'
    } else if d == 8 {
        '8'
    } else {
        '9'
    }
}

/// The decimal rendering of a non-negative number, most significant digit
/// first, without leading zeros (a lone zero for zero).
pub open spec fn dec_str(n: int) -> Seq<char>
    decreases n,
{
    if n < 10 {
        seq![digit_char(n)]
    } else {
        dec_str(n / 10).push(digit_char(n % 10))
    }
}

fn digit_of(d: u16) -> (c: char)
    requires
        d < 10,
    ensures
        c == digit_char(d as int),
{
    if d == 0 {
        '0'
    } else if d == 1 {
        '1'
    } else if d == 2 {
        '2'
    } else if d == 3 {
        '3'
    } else if d == 4 {
        '4'
    } else if d == 5 {
        '5'
    } else if d == 6 {
        '6'
    } else if d == 7 {
        '7'
    } else if d == 8 {
        '8'
    } else {
        '9'
    }
}

/// The decimal digits of `n`.
pub fn u16_to_dec(n: u16) -> (r: Vec<char>)
    ensures
        r@ == dec_str(n as int),
    decreases n,
{
    if n < 10 {
        let mut v: Vec<char> = Vec::new();
        v.push(digit_of(n));
        proof {
            assert(v@ =~~= seq![digit_char(n as int)]);
        }
        v
    } else {
        let mut v = u16_to_dec(n / 10);
        v.push(digit_of(n % 10));
        v
    }
}

/// What `serde_json` renders a text's JSON value as, with indentation: a
/// function of the text alone, absent when the text is not valid JSON.
pub uninterp spec fn json_pretty(s: Seq<char>) -> Option<Seq<char>>;

/// Relies on `serde_json::from_str::<Value>` and `serde_json::to_string_pretty`:
/// parsing text as JSON and re-serializing the value with indentation both
/// depend on the text alone, and parsing fails exactly on invalid JSON.
#[verifier::external_body]
fn pretty_print_json(s: &String) -> (r: Option<String>)
    ensures
        r is Some <==> json_pretty(s@) is Some,
        r matches Option::Some(p) ==> json_pretty(s@) == Option::Some(p@),
{
    match serde_json::from_str::<serde_json::Value>(s) {
        Ok(v) => match serde_json::to_string_pretty(&v) {
            Ok(p) => Some(p),
            Err(_) => None,
        },
        Err(_) => None,
    }
}

/// How a response body is shown: re-indented when it parses as JSON,
/// verbatim otherwise.
pub open spec fn body_render(body: Seq<char>) -> Seq<char> {
    match json_pretty(body) {
        Option::Some(p) => p,
        Option::None => body,
    }
}

/// What one dispatch came to: a status and body, or which of the two
/// transport steps failed.
pub enum Outcome {
    /// The request was sent and the body was read.
    Success { status: u16, body: String },
    /// The request was sent but reading the body failed.
    ReadFailed { message: String },
    /// Sending the request failed.
    SendFailed { message: String },
}

impl Outcome {
    /// The response text an outcome renders as.
    pub open spec fn rendered(self) -> Seq<char> {
        match self {
            Outcome::Success { status, body } => "Status: "@ + dec_str(status as int) + "\n\n"@
                + body_render(body@),
            Outcome::ReadFailed { message } => "Error reading body: "@ + message@,
            Outcome::SendFailed { message } => "Request failed: "@ + message@,
        }
    }
}

/// Render an outcome as the text the response region shows.
pub fn format_outcome(o: &Outcome) -> (r: String)
    ensures
        r@ == o.rendered(),
{
    match o {
        Outcome::Success { status, body } => {
            let mut r = String::from_str("Status: ");
            let digits = u16_to_dec(*status);
            r.append(chars_to_string(&digits).as_str());
            r.append("\n\n");
            match pretty_print_json(body) {
                Option::Some(p) => r.append(p.as_str()),
                Option::None => r.append(body.as_str()),
            }
            proof {
                assert(r@ =~~= o.rendered());
            }
            r
        },
        Outcome::ReadFailed { message } => {
            let mut r = String::from_str("Error reading body: ");
            r.append(message.as_str());
            r
        },
        Outcome::SendFailed { message } => {
            let mut r = String::from_str("Request failed: ");
            r.append(message.as_str());
            r
        },
    }
}

} // verus!
