//! The transport protocols a registry row can name, and how a cell's text
//! is recognised as one of them.
use vstd::prelude::*;

verus! {

/// The transport protocols indexed by the registry.
#[derive(Debug, Clone, Copy, PartialEq, Eq, Structural)]
pub enum TransportProtocol {
    Tcp,
    Udp,
    Sctp,
    Dccp,
}

/// `c` is the lowercase ASCII letter `lower`, written in either case.
pub open spec fn char_matches_ignoring_case(c: char, lower: char) -> bool {
    c == lower || ('A' <= c <= 'Z' && (c as u32) + 32 == (lower as u32))
}

/// `s` spells the lowercase ASCII word `word`, letters in any case.
pub open spec fn text_matches_ignoring_case(s: Seq<char>, word: Seq<char>) -> bool {
    &&& s.len() == word.len()
    &&& forall|i: int| 0 <= i < s.len() ==> char_matches_ignoring_case(#[trigger] s[i], word[i])
}

/// The canonical lowercase name of a protocol.
pub open spec fn protocol_name(p: TransportProtocol) -> Seq<char> {
    match p {
        TransportProtocol::Tcp => seq!['t', 'c', 'p'],
        TransportProtocol::Udp => seq!['u', 'd', 'p'],
        TransportProtocol::Sctp => seq!['s', 'c', 't', 'p'],
        TransportProtocol::Dccp => seq!['d', 'c', 'c', 'p'],
    }
}

/// The protocol that a cell's text names, if any: a case-insensitive match
/// against one of the canonical names; any other text names none.
pub open spec fn protocol_of(s: Seq<char>) -> Option<TransportProtocol> {
    if text_matches_ignoring_case(s, protocol_name(TransportProtocol::Tcp)) {
        Some(TransportProtocol::Tcp)
    } else if text_matches_ignoring_case(s, protocol_name(TransportProtocol::Udp)) {
        Some(TransportProtocol::Udp)
    } else if text_matches_ignoring_case(s, protocol_name(TransportProtocol::Sctp)) {
        Some(TransportProtocol::Sctp)
    } else if text_matches_ignoring_case(s, protocol_name(TransportProtocol::Dccp)) {
        Some(TransportProtocol::Dccp)
    } else {
        None
    }
}

/// Whether `s` spells `word` (a lowercase ASCII word) ignoring case.
fn matches_ignoring_case(s: &str, word: &str) -> (r: bool)
    ensures
        r == text_matches_ignoring_case(s@, word@),
{
    let n = s.unicode_len();
    if n != word.unicode_len() {
        return false;
    }
    let mut i: usize = 0;
    while i < n
        invariant
            n == s@.len(),
            n == word@.len(),
            i <= n,
            forall|j: int| 0 <= j < i ==> char_matches_ignoring_case(#[trigger] s@[j], word@[j]),
        decreases n - i,
    {
        let c = s.get_char(i);
        let w = word.get_char(i);
        let same = c == w || ('A' <= c && c <= 'Z' && (c as u32) + 32 == (w as u32));
        if !same {
            return false;
        }
        i = i + 1;
    }
    true
}

impl TransportProtocol {
    /// Recognises a protocol by name, case-insensitively.
    pub fn from_name(s: &str) -> (r: Option<TransportProtocol>)
        ensures
            r == protocol_of(s@),
    {
        proof {
            reveal_strlit("tcp");
            reveal_strlit("udp");
            reveal_strlit("sctp");
            reveal_strlit("dccp");
        }
        proof {
            assert("tcp"@ =~= protocol_name(TransportProtocol::Tcp));
            assert("udp"@ =~= protocol_name(TransportProtocol::Udp));
            assert("sctp"@ =~= protocol_name(TransportProtocol::Sctp));
            assert("dccp"@ =~= protocol_name(TransportProtocol::Dccp));
        }
        if matches_ignoring_case(s, "tcp") {
            Some(TransportProtocol::Tcp)
        } else if matches_ignoring_case(s, "udp") {
            Some(TransportProtocol::Udp)
        } else if matches_ignoring_case(s, "sctp") {
            Some(TransportProtocol::Sctp)
        } else if matches_ignoring_case(s, "dccp") {
            Some(TransportProtocol::Dccp)
        } else {
            None
        }
    }
}

} // verus!
