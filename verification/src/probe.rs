//! Classification of one probe's result: the raw result of a single HTTP GET
//! (a status code, or a transport error description) is turned into a
//! `ProbeOutcome`, healthy exactly when the status code is 200.

use vstd::prelude::*;
use vstd::string::StringExecFns;
use crate::site::SiteDescriptor;

verus! {

/// The raw result of one HTTP GET, as plain values: either the response's
/// status code, or the description of the transport-level failure
/// (connection refused, timeout, DNS failure, and the like).
pub enum ProbeResponse {
    Status(u16),
    TransportError(String),
}

/// The classified outcome of probing one site.
pub struct ProbeOutcome {
    /// The probed site, owned by its outcome once the probe resolves.
    pub site: SiteDescriptor,
    /// True exactly when a response was received with status code 200.
    pub healthy: bool,
    /// The decimal status code on a received response, or the transport
    /// error's description.
    pub detail: String,
}

/// The character for one decimal digit.
pub open spec fn digit_char(d: nat) -> char {
    if d == 0 {
        '0'
    } else if d == 1 {
        '1'
    } else if d == 2 {
        '2'
    } else if d == 3 {
        '3'
    } else if d == 4 {
        '4'
    } else if d == 5 {
        '5'
    } else if d == 6 {
        '6'
    } else if d == 7 {
        '7'
    } else if d == 8 {
        '8'
    } else {
        '9'
    }
}

/// The decimal rendering of a natural number, most significant digit first,
/// without leading zeros (the number zero renders as "0").
pub open spec fn dec_digits(n: nat) -> Seq<char>
    decreases n,
{
    if n < 10 {
        seq![digit_char(n)]
    } else {
        dec_digits(n / 10).push(digit_char(n % 10))
    }
}

/// The one-character string for a decimal digit.
fn digit_str(d: u16) -> (s: &'static str)
    requires
        d < 10,
    ensures
        s@ == seq![digit_char(d as nat)],
{
    let s: &'static str = match d {
        0 => "0",
        1 => "1",
        2 => "2",
        3 => "3",
        4 => "4",
        5 => "5",
        6 => "6",
        7 => "7",
        8 => "8",
        _ => "9",
    };
    proof {
        reveal_strlit("0");
        reveal_strlit("1");
        reveal_strlit("2");
        reveal_strlit("3");
        reveal_strlit("4");
        reveal_strlit("5");
        reveal_strlit("6");
        reveal_strlit("7");
        reveal_strlit("8");
        reveal_strlit("9");
        assert(s@ =~= seq![digit_char(d as nat)]);
    }
    s
}

/// Appends the decimal rendering of `n` to `s`.
fn push_decimal(s: &mut String, n: u16)
    ensures
        final(s)@ == old(s)@ + dec_digits(n as nat),
    decreases n,
{
    if n >= 10 {
        push_decimal(s, n / 10);
    }
    let d = n % 10;
    s.append(digit_str(d));
    proof {
        if n < 10 {
            assert(dec_digits(n as nat) == seq![digit_char(n as nat)]);
            assert(s@ =~= old(s)@ + dec_digits(n as nat));
        } else {
            assert(dec_digits(n as nat) == dec_digits((n / 10) as nat).push(
                digit_char((n % 10) as nat),
            ));
            assert(s@ =~= old(s)@ + dec_digits(n as nat));
        }
    }
}

/// The decimal rendering of a status code as a `String`.
pub fn u16_string(n: u16) -> (s: String)
    ensures
        s@ == dec_digits(n as nat),
{
    let mut s = String::new();
    push_decimal(&mut s, n);
    proof {
        assert(s@ =~= dec_digits(n as nat));
    }
    s
}

/// Classifies the raw result of one probe. The site is healthy exactly when
/// a response was received and its status code is 200; any other status code
/// and any transport failure is unhealthy. The detail carries the decimal
/// status code of a received response, or the transport error's description
/// unchanged.
pub fn classify(site: SiteDescriptor, resp: ProbeResponse) -> (o: ProbeOutcome)
    ensures
        o.site == site,
        o.healthy == (resp == ProbeResponse::Status(200u16)),
        resp matches ProbeResponse::Status(c) ==> o.detail@ == dec_digits(c as nat),
        resp matches ProbeResponse::TransportError(e) ==> o.detail@ == e@,
{
    match resp {
        ProbeResponse::Status(code) => {
            let healthy = code == 200;
            let detail = u16_string(code);
            ProbeOutcome { site, healthy, detail }
        },
        ProbeResponse::TransportError(e) => {
            ProbeOutcome { site, healthy: false, detail: e }
        },
    }
}

} // verus!
