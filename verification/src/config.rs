//! The configuration resolver: optional host and port strings, with fixed
//! defaults, become one concrete `BindAddress`, or a fatal error.
//!
//! The host string must be an IPv4 literal in dotted-quad form and the port
//! string a decimal number no larger than 65535. An absent host defaults to
//! `0.0.0.0`, an absent port to `6881`. Anything else is a fatal
//! configuration error, never a silent default.

use vstd::prelude::*;

use crate::BindAddress;
use crate::Ipv4;

verus! {

/// Why resolution failed: the host string is not an IPv4 literal, or the
/// port string is not a decimal number up to 65535.
#[derive(Clone, Copy, Debug, PartialEq, Eq, Structural)]
pub enum ConfigError {
    InvalidHost,
    InvalidPort,
}

/// The byte is an ASCII decimal digit.
pub open spec fn is_digit(b: u8) -> bool {
    48 <= b <= 57
}

pub open spec fn all_digits(s: Seq<u8>) -> bool {
    forall|i: int| 0 <= i < s.len() ==> is_digit(s[i])
}

/// The value of a sequence of decimal digits, most significant first.
pub open spec fn dec_val(s: Seq<u8>) -> nat
    decreases s.len(),
{
    if s.len() == 0 {
        0
    } else {
        dec_val(s.drop_last()) * 10 + (s.last() - 48) as nat
    }
}

/// The end of the run of digits that starts at `p`: the first position at or
/// after `p` that is past the end of `s` or holds a non-digit.
pub open spec fn digits_end(s: Seq<u8>, p: int) -> int
    decreases s.len() - p when 0 <= p <= s.len()
{
    if p < s.len() && is_digit(s[p]) {
        digits_end(s, p + 1)
    } else {
        p
    }
}

proof fn lemma_digits_end(s: Seq<u8>, p: int)
    requires
        0 <= p <= s.len(),
    ensures
        p <= digits_end(s, p) <= s.len(),
        forall|j: int| p <= j < digits_end(s, p) ==> is_digit(s[j]),
        digits_end(s, p) < s.len() ==> !is_digit(s[digits_end(s, p)]),
    decreases s.len() - p,
{
    if p < s.len() && is_digit(s[p]) {
        lemma_digits_end(s, p + 1);
    }
}

/// A port string is a non-empty, all-digit string whose value fits in a port
/// number; its value is that number.
pub open spec fn parse_port_spec(s: Seq<u8>) -> Option<u16> {
    if s.len() >= 1 && all_digits(s) && dec_val(s) <= 65535 {
        Some(dec_val(s) as u16)
    } else {
        None
    }
}

/// An IPv4 literal is four runs of digits separated by single dots, covering
/// the whole string, each run non-empty with a value of at most 255. Each
/// run is maximal, so the dots are exactly the non-digit positions.
pub open spec fn parse_ipv4_spec(s: Seq<u8>) -> Option<Ipv4> {
    let e0 = digits_end(s, 0);
    let dot1 = e0 < s.len() && s[e0] == 46;
    let e1 = digits_end(s, e0 + 1);
    let dot2 = dot1 && e1 < s.len() && s[e1] == 46;
    let e2 = digits_end(s, e1 + 1);
    let dot3 = dot2 && e2 < s.len() && s[e2] == 46;
    let e3 = digits_end(s, e2 + 1);
    if dot3 && e3 == s.len() && 0 < e0 && dec_val(s.subrange(0, e0)) <= 255 && e0 + 1 < e1
        && dec_val(s.subrange(e0 + 1, e1)) <= 255 && e1 + 1 < e2 && dec_val(
        s.subrange(e1 + 1, e2),
    ) <= 255 && e2 + 1 < e3 && dec_val(s.subrange(e2 + 1, e3)) <= 255 {
        Some(
            Ipv4 {
                a: dec_val(s.subrange(0, e0)) as u8,
                b: dec_val(s.subrange(e0 + 1, e1)) as u8,
                c: dec_val(s.subrange(e1 + 1, e2)) as u8,
                d: dec_val(s.subrange(e2 + 1, e3)) as u8,
            },
        )
    } else {
        None
    }
}

/// Scan the run of digits starting at `start`, reporting where it ends and
/// its value, saturated just past `cap` so the caller can tell "too large"
/// from any admissible value.
fn scan_number(s: &Vec<u8>, start: usize, cap: u32) -> (r: (usize, u32))
    requires
        start <= s@.len(),
        cap <= 65535,
    ensures
        r.0 == digits_end(s@, start as int),
        start <= r.0 <= s@.len(),
        dec_val(s@.subrange(start as int, r.0 as int)) <= cap ==> r.1 == dec_val(
            s@.subrange(start as int, r.0 as int),
        ),
        dec_val(s@.subrange(start as int, r.0 as int)) > cap ==> r.1 == cap + 1,
{
    let mut i: usize = start;
    let mut val: u32 = 0;
    proof {
        assert(s@.subrange(start as int, start as int) =~= Seq::<u8>::empty());
    }
    while i < s.len() && 48 <= s[i] && s[i] <= 57
        invariant
            start <= i <= s@.len(),
            cap <= 65535,
            digits_end(s@, start as int) == digits_end(s@, i as int),
            forall|j: int| start <= j < i ==> is_digit(s@[j]),
            dec_val(s@.subrange(start as int, i as int)) <= cap ==> val == dec_val(
                s@.subrange(start as int, i as int),
            ),
            dec_val(s@.subrange(start as int, i as int)) > cap ==> val == cap + 1,
        decreases s@.len() - i,
    {
        let d = (s[i] - 48) as u32;
        proof {
            assert(s@.subrange(start as int, i + 1 as int).drop_last() =~= s@.subrange(
                start as int,
                i as int,
            ));
            assert(s@.subrange(start as int, i + 1 as int).last() == s@[i as int]);
        }
        if val <= cap {
            let candidate = val * 10 + d;
            val = if candidate > cap {
                cap + 1
            } else {
                candidate
            };
        }
        i = i + 1;
    }
    proof {
        if i < s@.len() {
            assert(!is_digit(s@[i as int]));
        }
    }
    (i, val)
}

/// Parse a dotted-quad IPv4 literal, exactly as `parse_ipv4_spec` reads it.
pub fn parse_ipv4(s: &Vec<u8>) -> (r: Option<Ipv4>)
    ensures
        r == parse_ipv4_spec(s@),
{
    let (e0, v0) = scan_number(s, 0, 255);
    if e0 == 0 || v0 > 255 {
        return None;
    }
    if e0 == s.len() || !(s[e0] == 46) {
        return None;
    }
    let (e1, v1) = scan_number(s, e0 + 1, 255);
    if e1 == e0 + 1 || v1 > 255 {
        return None;
    }
    if e1 == s.len() || !(s[e1] == 46) {
        return None;
    }
    let (e2, v2) = scan_number(s, e1 + 1, 255);
    if e2 == e1 + 1 || v2 > 255 {
        return None;
    }
    if e2 == s.len() || !(s[e2] == 46) {
        return None;
    }
    let (e3, v3) = scan_number(s, e2 + 1, 255);
    if e3 == e2 + 1 || v3 > 255 {
        return None;
    }
    if e3 != s.len() {
        return None;
    }
    Some(Ipv4 { a: v0 as u8, b: v1 as u8, c: v2 as u8, d: v3 as u8 })
}

/// Parse a decimal port number, exactly as `parse_port_spec` reads it.
pub fn parse_port(s: &Vec<u8>) -> (r: Option<u16>)
    ensures
        r == parse_port_spec(s@),
{
    let (e, v) = scan_number(s, 0, 65535);
    proof {
        lemma_digits_end(s@, 0);
        if e == s@.len() {
            assert(s@.subrange(0, e as int) =~= s@);
        }
    }
    if e == s.len() && e > 0 && v <= 65535 {
        Some(v as u16)
    } else {
        None
    }
}

/// The host string assumed when none is given: the bytes of `0.0.0.0`.
pub open spec fn default_host_literal() -> Seq<u8> {
    seq![48u8, 46u8, 48u8, 46u8, 48u8, 46u8, 48u8]
}

/// The port string assumed when none is given: the bytes of `6881`.
pub open spec fn default_port_literal() -> Seq<u8> {
    seq![54u8, 56u8, 56u8, 49u8]
}

/// The address the default host string names.
pub open spec fn default_ip() -> Ipv4 {
    Ipv4 { a: 0, b: 0, c: 0, d: 0 }
}

/// The port the default port string names.
pub open spec fn default_port() -> u16 {
    6881
}

/// The default strings parse to the default values: with no host and no
/// port given, resolution lands on `0.0.0.0:6881` and on nothing else.
pub proof fn lemma_defaults_parse()
    ensures
        parse_ipv4_spec(default_host_literal()) == Some(default_ip()),
        parse_port_spec(default_port_literal()) == Some(default_port()),
{
    let s = default_host_literal();
    assert(s.len() == 7);
    assert(s[0] == 48 && s[2] == 48 && s[4] == 48 && s[6] == 48);
    assert(s[1] == 46 && s[3] == 46 && s[5] == 46);
    assert(digits_end(s, 7) == 7);
    assert(digits_end(s, 6) == 7);
    assert(digits_end(s, 5) == 5);
    assert(digits_end(s, 4) == 5);
    assert(digits_end(s, 3) == 3);
    assert(digits_end(s, 2) == 3);
    assert(digits_end(s, 1) == 1);
    assert(digits_end(s, 0) == 1);
    let zero = seq![48u8];
    assert(dec_val(Seq::<u8>::empty()) == 0);
    assert(zero.drop_last() =~= Seq::<u8>::empty());
    assert(zero.last() == 48);
    assert(dec_val(zero) == 0);
    assert(s.subrange(0, 1) =~= zero);
    assert(s.subrange(2, 3) =~= zero);
    assert(s.subrange(4, 5) =~= zero);
    assert(s.subrange(6, 7) =~= zero);

    let t = default_port_literal();
    assert(t.len() == 4);
    assert(t[0] == 54 && t[1] == 56 && t[2] == 56 && t[3] == 49);
    assert(all_digits(t));
    let t1 = seq![54u8];
    let t2 = seq![54u8, 56u8];
    let t3 = seq![54u8, 56u8, 56u8];
    assert(t1.drop_last() =~= Seq::<u8>::empty());
    assert(t2.drop_last() =~= t1);
    assert(t3.drop_last() =~= t2);
    assert(t.drop_last() =~= t3);
    assert(dec_val(t1) == 6);
    assert(dec_val(t2) == 68);
    assert(dec_val(t3) == 688);
    assert(dec_val(t) == 6881);
}

pub open spec fn opt_bytes(o: Option<&Vec<u8>>) -> Option<Seq<u8>> {
    match o {
        Some(v) => Some(v@),
        None => None,
    }
}

/// What the resolver returns: the parsed host and port, with the strings
/// `0.0.0.0` and `6881` standing in for absent inputs; an unparsable host
/// or port is a fatal error, the host reported first.
pub open spec fn resolve_spec(ip: Option<Seq<u8>>, port: Option<Seq<u8>>) -> Result<
    BindAddress,
    ConfigError,
> {
    let ip_r = parse_ipv4_spec(
        match ip {
            Some(s) => s,
            None => default_host_literal(),
        },
    );
    let port_r = parse_port_spec(
        match port {
            Some(s) => s,
            None => default_port_literal(),
        },
    );
    match (ip_r, port_r) {
        (None, _) => Err(ConfigError::InvalidHost),
        (_, None) => Err(ConfigError::InvalidPort),
        (Some(i), Some(p)) => Ok(BindAddress { ip: i, port: p }),
    }
}

/// Resolve an optional host and an optional port string to the single
/// concrete address the server binds.
pub fn resolve(ip: Option<&Vec<u8>>, port: Option<&Vec<u8>>) -> (r: Result<
    BindAddress,
    ConfigError,
>)
    ensures
        r == resolve_spec(opt_bytes(ip), opt_bytes(port)),
        ip is None && port is None ==> r == Ok::<BindAddress, ConfigError>(
            BindAddress { ip: default_ip(), port: default_port() },
        ),
{
    proof {
        lemma_defaults_parse();
    }
    let ip_v = match ip {
        Some(s) => match parse_ipv4(s) {
            Some(v) => v,
            None => {
                return Err(ConfigError::InvalidHost);
            },
        },
        None => Ipv4 { a: 0, b: 0, c: 0, d: 0 },
    };
    let port_v = match port {
        Some(s) => match parse_port(s) {
            Some(v) => v,
            None => {
                return Err(ConfigError::InvalidPort);
            },
        },
        None => 6881,
    };
    Ok(BindAddress { ip: ip_v, port: port_v })
}

} // verus!
