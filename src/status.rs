//! The text of an HTTP status code.
use vstd::prelude::*;

verus! {

/// The canonical reason phrase of a status code, if it has one.
pub uninterp spec fn reason_phrase(code: u16) -> Option<Seq<char>>;

/// Relies on `reqwest::StatusCode::canonical_reason`, reached through
/// `StatusCode::from_u16`: the reason phrase registered for the code.
#[verifier::external_body]
fn canonical_reason(code: u16) -> (r: Option<&'static str>)
    ensures
        match r {
            Some(p) => reason_phrase(code) == Some(p@),
            None => reason_phrase(code) is None,
        },
{
    match reqwest::StatusCode::from_u16(code) {
        Ok(status) => status.canonical_reason(),
        Err(_) => None,
    }
}

pub open spec fn digit_char(d: nat) -> char {
    if d < 10 {
        ((d + 48) as u8) as char
    } else {
        '?'
    }
}

/// The decimal digits of `n`, without leading zeros.
pub open spec fn decimal(n: nat) -> Seq<char>
    decreases n,
{
    if n < 10 {
        seq![digit_char(n)]
    } else {
        decimal(n / 10).push(digit_char(n % 10))
    }
}

fn digit_text(d: u16) -> (r: &'static str)
    requires
        d < 10,
    ensures
        r@ == seq![digit_char(d as nat)],
{
    proof {
        reveal_strlit("0");
        reveal_strlit("1");
        reveal_strlit("2");
        reveal_strlit("3");
        reveal_strlit("4");
        reveal_strlit("5");
        reveal_strlit("6");
        reveal_strlit("7");
        reveal_strlit("8");
        reveal_strlit("9");
    }
    let r = match d {
        0 => "0",
        1 => "1",
        2 => "2",
        3 => "3",
        4 => "4",
        5 => "5",
        6 => "6",
        7 => "7",
        8 => "8",
        _ => "9",
    };
    assert(r@ =~= seq![digit_char(d as nat)]);
    r
}

/// The decimal digits of `n`.
pub fn decimal_text(n: u16) -> (r: String)
    ensures
        r@ == decimal(n as nat),
    decreases n,
{
    if n < 10 {
        String::from_str(digit_text(n))
    } else {
        let head = decimal_text(n / 10);
        head.concat(digit_text(n % 10))
    }
}

/// How a status reads: the code, then its reason phrase.
pub open spec fn status_text(code: u16) -> Seq<char> {
    decimal(code as nat) + " "@ + match reason_phrase(code) {
        Some(p) => p,
        None => "<unknown status code>"@,
    }
}

/// How a status reads: the code, then its reason phrase.
pub fn status_message(code: u16) -> (r: String)
    ensures
        r@ == status_text(code),
{
    let text = decimal_text(code).concat(" ");
    match canonical_reason(code) {
        Some(p) => text.concat(p),
        None => text.concat("<unknown status code>"),
    }
}

} // verus!
