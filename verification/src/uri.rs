//! Rewriting the request target for the upstream hop.
//!
//! The request sent upstream carries scheme `http`, authority equal to the
//! chosen backend's endpoint, and the path-and-query of the front-side
//! request (defaulting to `/` when it is missing); the Host header is
//! overwritten with the same authority. This module builds those strings,
//! character by character, against an exact specification of the decimal
//! rendering.

use vstd::prelude::*;
use crate::backend::Endpoint;

verus! {

/// The character for one decimal digit.
pub open spec fn digit_char(d: int) -> char {
    if d == 0 {
        '0'
    } else if d == 1 {
        '1'
    } else if d == 2 {
        '2'
    } else if d == 3 {
        '3'
    } else if d == 4 {
        '4'
    } else if d == 5 {
        '5'
    } else if d == 6 {
        '6'
    } else if d == 7 {
        '7'
    } else if d == 8 {
        '8'
    } else {
        '9'
    }
}

/// The decimal rendering of a non-negative integer, most significant digit
/// first, with no leading zeros (a lone `0` for zero).
pub open spec fn dec_digits(n: int) -> Seq<char>
    decreases n,
{
    if n < 10 {
        seq![digit_char(n)]
    } else {
        dec_digits(n / 10).push(digit_char(n % 10))
    }
}

/// The textual authority of an endpoint: dotted-quad host, a colon, and the
/// decimal port.
pub open spec fn authority_seq(e: Endpoint) -> Seq<char> {
    dec_digits(e.ip as int / 0x1000000) + seq!['.'] + dec_digits((e.ip as int / 0x10000) % 0x100)
        + seq!['.'] + dec_digits((e.ip as int / 0x100) % 0x100) + seq!['.'] + dec_digits(
        e.ip as int % 0x100,
    ) + seq![':'] + dec_digits(e.port as int)
}

/// The scheme prefix of every upstream request target.
pub open spec fn scheme_prefix() -> Seq<char> {
    seq!['h', 't', 't', 'p', ':', '/', '/']
}

/// The full upstream request target: `http://`, the authority, then the
/// front-side path-and-query.
pub open spec fn upstream_uri_seq(e: Endpoint, path_and_query: Seq<char>) -> Seq<char> {
    scheme_prefix() + authority_seq(e) + path_and_query
}

/// The one-character string for a decimal digit.
fn digit_str(d: u64) -> (r: &'static str)
    requires
        d < 10,
    ensures
        r@ =~= seq![digit_char(d as int)],
{
    proof {
        reveal_strlit("0");
        reveal_strlit("1");
        reveal_strlit("2");
        reveal_strlit("3");
        reveal_strlit("4");
        reveal_strlit("5");
        reveal_strlit("6");
        reveal_strlit("7");
        reveal_strlit("8");
        reveal_strlit("9");
    }
    if d == 0 {
        "0"
    } else if d == 1 {
        "1"
    } else if d == 2 {
        "2"
    } else if d == 3 {
        "3"
    } else if d == 4 {
        "4"
    } else if d == 5 {
        "5"
    } else if d == 6 {
        "6"
    } else if d == 7 {
        "7"
    } else if d == 8 {
        "8"
    } else {
        "9"
    }
}

/// Append the decimal rendering of `n` to a string.
fn append_decimal(s: &mut String, n: u64)
    ensures
        final(s)@ == old(s)@ + dec_digits(n as int),
    decreases n,
{
    if n >= 10 {
        append_decimal(s, n / 10);
        let digit = digit_str(n % 10);
        s.append(digit);
        proof {
            assert(old(s)@ + dec_digits((n / 10) as int) + digit@ =~= old(s)@ + dec_digits(
                n as int,
            ));
        }
    } else {
        let digit = digit_str(n);
        s.append(digit);
        proof {
            assert(old(s)@ + digit@ =~= old(s)@ + dec_digits(n as int));
        }
    }
}

/// The authority string of an endpoint, `a.b.c.d:port`; this is also the
/// value written into the upstream Host header.
pub fn authority_string(e: &Endpoint) -> (r: String)
    ensures
        r@ == authority_seq(*e),
{
    proof {
        reveal_strlit(".");
        reveal_strlit(":");
    }
    let mut s = String::new();
    append_decimal(&mut s, (e.ip / 0x1000000) as u64);
    s.append(".");
    append_decimal(&mut s, ((e.ip / 0x10000) % 0x100) as u64);
    s.append(".");
    append_decimal(&mut s, ((e.ip / 0x100) % 0x100) as u64);
    s.append(".");
    append_decimal(&mut s, (e.ip % 0x100) as u64);
    s.append(":");
    append_decimal(&mut s, e.port as u64);
    proof {
        assert(s@ =~= authority_seq(*e));
    }
    s
}

/// The upstream request target for a backend and a front-side
/// path-and-query: `http://`, the authority, then the path. A missing
/// path-and-query defaults to `/`.
pub fn upstream_uri(e: &Endpoint, path_and_query: Option<&str>) -> (r: String)
    ensures
        match path_and_query {
            Some(p) => r@ == upstream_uri_seq(*e, p@),
            None => r@ == upstream_uri_seq(*e, seq!['/']),
        },
{
    proof {
        reveal_strlit("http://");
        reveal_strlit("/");
    }
    let mut s = String::from_str("http://");
    proof {
        assert(s@ =~= scheme_prefix());
    }
    let authority = authority_string(e);
    s.append(authority.as_str());
    match path_and_query {
        Some(p) => {
            s.append(p);
            proof {
                assert(s@ =~= upstream_uri_seq(*e, p@));
            }
        },
        None => {
            s.append("/");
            proof {
                assert(s@ =~= upstream_uri_seq(*e, seq!['/']));
            }
        },
    }
    s
}

} // verus!
