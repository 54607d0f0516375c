//! Row records and the tolerant reading of one CSV row into a record.
use vstd::prelude::*;
use crate::protocol::{protocol_of, TransportProtocol};

verus! {

/// What a row record holds, as plain values.
pub struct RowRecord {
    pub service_name: Seq<char>,
    pub port_number: Option<u16>,
    pub transport_protocol: Option<TransportProtocol>,
    pub description: Seq<char>,
}

/// One data row of the registry table. A port number or protocol that the
/// row's cells do not give is `None`.
#[derive(Debug, Clone)]
pub struct PortDescEntry {
    pub service_name: String,
    pub port_number: Option<u16>,
    pub transport_protocol: Option<TransportProtocol>,
    pub description: String,
}

impl View for PortDescEntry {
    type V = RowRecord;

    open spec fn view(&self) -> RowRecord {
        RowRecord {
            service_name: self.service_name@,
            port_number: self.port_number,
            transport_protocol: self.transport_protocol,
            description: self.description@,
        }
    }
}

impl PortDescEntry {
    /// A copy of this entry.
    pub fn duplicate(&self) -> (r: PortDescEntry)
        ensures
            r@ == self@,
    {
        PortDescEntry {
            service_name: self.service_name.clone(),
            port_number: self.port_number,
            transport_protocol: self.transport_protocol,
            description: self.description.clone(),
        }
    }
}

/// The value of a digit in the given radix (10 or 16; hex letters in
/// either case), if `c` is one.
pub open spec fn digit_value(c: char, radix: nat) -> Option<nat> {
    if '0' <= c <= '9' {
        Some((c as nat - '0' as nat) as nat)
    } else if radix == 16 && 'a' <= c <= 'f' {
        Some((c as nat - 'a' as nat + 10) as nat)
    } else if radix == 16 && 'A' <= c <= 'F' {
        Some((c as nat - 'A' as nat + 10) as nat)
    } else {
        None
    }
}

/// The number that a run of digits spells, if every character is a digit.
pub open spec fn digits_value(s: Seq<char>, radix: nat) -> Option<nat>
    decreases s.len(),
{
    if s.len() == 0 {
        Some(0)
    } else {
        match (digits_value(s.drop_last(), radix), digit_value(s.last(), radix)) {
            (Some(v), Some(d)) => Some(v * radix + d),
            _ => None,
        }
    }
}

/// An unsigned literal: an optional `+` and at least one digit.
pub open spec fn unsigned_value(s: Seq<char>, radix: nat) -> Option<nat> {
    let body = if s.len() > 0 && s[0] == '+' { s.skip(1) } else { s };
    if body.len() == 0 { None } else { digits_value(body, radix) }
}

/// The port number a cell gives: a decimal literal, or a hexadecimal one
/// after `0x`, whose value fits in 16 bits. Anything else (an empty cell,
/// a range such as `8000-8080`, text) gives none.
pub open spec fn port_of(s: Seq<char>) -> Option<u16> {
    let v = if s.len() >= 2 && s[0] == '0' && s[1] == 'x' {
        unsigned_value(s.skip(2), 16)
    } else {
        unsigned_value(s, 10)
    };
    match v {
        Some(n) => if n <= 65535 { Some(n as u16) } else { None },
        None => None,
    }
}

/// Reads the digits of `s` from `start` on; `None` unless all are digits
/// and the value fits in 16 bits.
fn parse_digits(s: &str, start: usize, radix: u32) -> (r: Option<u16>)
    requires
        start <= s@.len(),
        radix == 10 || radix == 16,
    ensures
        r == (match digits_value(s@.skip(start as int), radix as nat) {
            Some(n) => if n <= 65535 { Some(n as u16) } else { None },
            None => None,
        }),
{
    let n = s.unicode_len();
    let ghost t = s@.skip(start as int);
    let mut i: usize = start;
    let mut ok = true;
    let mut too_big = false;
    let mut acc: u32 = 0;
    while i < n
        invariant
            n == s@.len(),
            start <= i <= n,
            t == s@.skip(start as int),
            radix == 10 || radix == 16,
            acc <= 65535,
            ok <==> digits_value(t.take(i - start), radix as nat) is Some,
            ok && !too_big ==> digits_value(t.take(i - start), radix as nat) == Some(acc as nat),
            ok && too_big ==> digits_value(t.take(i - start), radix as nat)->0 > 65535,
        decreases n - i,
    {
        let c = s.get_char(i);
        let ghost prev = t.take(i - start);
        let ghost next = t.take(i + 1 - start);
        assert(next.drop_last() =~= prev);
        assert(next.last() == c);
        let d: u32 = if '0' <= c && c <= '9' {
            (c as u32) - ('0' as u32)
        } else if radix == 16 && 'a' <= c && c <= 'f' {
            (c as u32) - ('a' as u32) + 10
        } else if radix == 16 && 'A' <= c && c <= 'F' {
            (c as u32) - ('A' as u32) + 10
        } else {
            16
        };
        if d == 16 {
            ok = false;
        } else if ok && !too_big {
            let v = acc * radix + d;
            if v > 65535 {
                too_big = true;
            } else {
                acc = v;
            }
        } else if ok {
            let ghost pv = digits_value(prev, radix as nat)->0;
            assert(pv * radix as nat + d as nat > 65535) by (nonlinear_arith)
                requires
                    pv > 65535,
                    radix == 10 || radix == 16,
            ;
        }
        i = i + 1;
    }
    assert(t.take(n - start) =~= t);
    if ok && !too_big {
        Some(acc as u16)
    } else {
        None
    }
}

/// Reads a port-number cell; see `port_of`.
pub fn parse_port(s: &str) -> (r: Option<u16>)
    ensures
        r == port_of(s@),
{
    let n = s.unicode_len();
    let (start, radix): (usize, u32) = if n >= 2 && s.get_char(0) == '0' && s.get_char(1) == 'x' {
        (2, 16)
    } else {
        (0, 10)
    };
    let ghost rest = s@.skip(start as int);
    if n > start && s.get_char(start) == '+' {
        assert(s@.skip(start + 1) =~= rest.skip(1));
        if n == start + 1 {
            None
        } else {
            parse_digits(s, start + 1, radix)
        }
    } else {
        assert(s@.skip(0) =~= s@);
        if n == start {
            None
        } else {
            parse_digits(s, start, radix)
        }
    }
}

} // verus!
