//! Default text formatting for failure events: decimal rendering of
//! line/column numbers, the location string, and the default dialog
//! title and body.  Every function here is pure and total: it runs
//! inside the failure-handling path and must never itself fail.

use vstd::prelude::*;
use vstd::string::StringExecFns;

use crate::failure::{FailureInfo, Location};

verus! {

/// The decimal digit character for `d`, for `d < 10`.
pub open spec fn spec_digit_char(d: nat) -> char {
    if d == 0 {
        '0'
    } else if d == 1 {
        '1'
    } else if d == 2 {
        '2'
    } else if d == 3 {
        '3'
    } else if d == 4 {
        '4'
    } else if d == 5 {
        '5'
    } else if d == 6 {
        '6'
    } else if d == 7 {
        '7'
    } else if d == 8 {
        '8'
    } else {
        '9'
    }
}

/// Decimal rendering of `n`: most significant digit first, no leading
/// zeros (a single "0" for zero).
pub open spec fn spec_decimal(n: nat) -> Seq<char>
    decreases n,
{
    if n < 10 {
        seq![spec_digit_char(n)]
    } else {
        spec_decimal(n / 10) + seq![spec_digit_char(n % 10)]
    }
}

/// The title used when no title producer was supplied.
pub open spec fn spec_default_title() -> Seq<char> {
    "Fatal Error"@
}

/// The location part of the default body: "file:line:column".
pub open spec fn spec_location_text(loc: Location) -> Seq<char> {
    loc.file@ + ":"@ + spec_decimal(loc.line as nat) + ":"@ + spec_decimal(loc.column as nat)
}

/// The location part of the default body when the runtime could not
/// determine a source position.
pub open spec fn spec_location_or_unknown(location: Option<Location>) -> Seq<char> {
    match location {
        Some(loc) => spec_location_text(loc),
        None => "Unknown Location"@,
    }
}

/// The body used when no body producer was supplied:
/// "Unhandled panic! at <location>:\n<payload>".
pub open spec fn spec_default_body(info: FailureInfo) -> Seq<char> {
    "Unhandled panic! at "@ + spec_location_or_unknown(info.location) + ":\n"@
        + info.payload.spec_text()
}

/// The default body ends with the payload's text, verbatim: whatever
/// the payload renders as, textual or placeholder, stands unaltered as
/// the suffix of the default body.
pub proof fn lemma_default_body_ends_with_payload(info: FailureInfo)
    ensures
        spec_default_body(info).len() >= info.payload.spec_text().len(),
        spec_default_body(info).subrange(
            spec_default_body(info).len() - info.payload.spec_text().len(),
            spec_default_body(info).len() as int,
        ) == info.payload.spec_text(),
{
    let prefix = "Unhandled panic! at "@ + spec_location_or_unknown(info.location) + ":\n"@;
    let payload = info.payload.spec_text();
    assert(spec_default_body(info) =~= prefix + payload);
    assert((prefix + payload).subrange(prefix.len() as int, (prefix + payload).len() as int)
        =~= payload);
}

fn digit_str(d: u32) -> (r: &'static str)
    requires
        d < 10,
    ensures
        r@ == seq![spec_digit_char(d as nat)],
{
    proof {
        reveal_strlit("0");
        reveal_strlit("1");
        reveal_strlit("2");
        reveal_strlit("3");
        reveal_strlit("4");
        reveal_strlit("5");
        reveal_strlit("6");
        reveal_strlit("7");
        reveal_strlit("8");
        reveal_strlit("9");
    }
    let r: &'static str = if d == 0 {
        "0"
    } else if d == 1 {
        "1"
    } else if d == 2 {
        "2"
    } else if d == 3 {
        "3"
    } else if d == 4 {
        "4"
    } else if d == 5 {
        "5"
    } else if d == 6 {
        "6"
    } else if d == 7 {
        "7"
    } else if d == 8 {
        "8"
    } else {
        "9"
    };
    proof {
        assert(r@ =~= seq![spec_digit_char(d as nat)]);
    }
    r
}

/// Decimal rendering of `n`, matching `spec_decimal`.
pub fn u32_decimal(n: u32) -> (r: String)
    ensures
        r@ == spec_decimal(n as nat),
    decreases n,
{
    if n < 10 {
        String::from_str(digit_str(n))
    } else {
        let mut s = u32_decimal(n / 10);
        s.append(digit_str(n % 10));
        s
    }
}

/// Format a source location as "file:line:column".
pub fn location_text(loc: &Location) -> (r: String)
    ensures
        r@ == spec_location_text(*loc),
{
    let mut s = loc.file.clone();
    s.append(":");
    let line = u32_decimal(loc.line);
    s.append(line.as_str());
    s.append(":");
    let column = u32_decimal(loc.column);
    s.append(column.as_str());
    s
}

/// The default title text.
pub fn default_title_text() -> (r: String)
    ensures
        r@ == spec_default_title(),
{
    String::from_str("Fatal Error")
}

/// The default body text for `info`; total, never fails.
pub fn default_body_text(info: &FailureInfo) -> (r: String)
    ensures
        r@ == spec_default_body(*info),
{
    let mut s = String::from_str("Unhandled panic! at ");
    match &info.location {
        Some(loc) => {
            let t = location_text(loc);
            s.append(t.as_str());
        },
        None => {
            s.append("Unknown Location");
        },
    }
    s.append(":\n");
    let payload = info.payload.text();
    s.append(payload.as_str());
    s
}

} // verus!
