//! Identity exchange with the peer.
//!
//! The first record each side sends is its identity, in the fixed textual
//! form `<name> <version>`: two non-empty tokens separated by a single
//! space. The executor checks the peer's announced version against
//! [`PROTOCOL_VERSION`] before any request is processed.

use vstd::prelude::*;

verus! {

use crate::value::str_eq;

/// The one protocol version this library speaks; the peer must announce it.
pub const PROTOCOL_VERSION: &'static str = "v1";

/// Identity of a peer: a name and a version, exchanged once during the
/// handshake and immutable afterwards.
#[derive(Debug, Clone, PartialEq)]
pub struct Header {
    /// The announced name.
    pub name: String,
    /// The announced version.
    pub version: String,
}

/// Index of the first space in `s`, if any.
pub open spec fn spec_first_space(s: Seq<char>) -> Option<int>
    decreases s.len(),
{
    if s.len() == 0 {
        None
    } else if s[0] == ' ' {
        Some(0)
    } else {
        match spec_first_space(s.skip(1)) {
            None => None,
            Some(i) => Some(i + 1),
        }
    }
}

/// The (name, version) pair an identity line denotes, if it is well formed:
/// two non-empty space-free tokens separated by a single space.
pub open spec fn spec_parse_header(s: Seq<char>) -> Option<(Seq<char>, Seq<char>)> {
    match spec_first_space(s) {
        None => None,
        Some(i) => {
            let name = s.subrange(0, i);
            let version = s.subrange(i + 1, s.len() as int);
            if i > 0 && version.len() > 0 && spec_first_space(version) is None {
                Some((name, version))
            } else {
                None
            }
        },
    }
}

/// The identity line for a header.
pub open spec fn spec_header_line(h: Header) -> Seq<char> {
    h.name@ + " "@ + h.version@
}

/// A header whose tokens are non-empty and free of spaces, so that its
/// identity line is well formed.
pub open spec fn header_wf(h: Header) -> bool {
    &&& h.name@.len() > 0
    &&& h.version@.len() > 0
    &&& forall|j: int| 0 <= j < h.name@.len() ==> h.name@[j] != ' '
    &&& forall|j: int| 0 <= j < h.version@.len() ==> h.version@[j] != ' '
}

/// If `s` has no space, the first-space search finds none.
proof fn lemma_first_space_none(s: Seq<char>)
    requires
        forall|j: int| 0 <= j < s.len() ==> s[j] != ' ',
    ensures
        spec_first_space(s) is None,
    decreases s.len(),
{
    if s.len() > 0 {
        lemma_first_space_none(s.skip(1));
    }
}

/// If the first space of `s` stands at `k`, the search finds exactly `k`.
proof fn lemma_first_space_at(s: Seq<char>, k: int)
    requires
        0 <= k < s.len(),
        s[k] == ' ',
        forall|j: int| 0 <= j < k ==> s[j] != ' ',
    ensures
        spec_first_space(s) == Some(k),
    decreases k,
{
    if k > 0 {
        lemma_first_space_at(s.skip(1), k - 1);
    }
}

/// What a successful first-space search says of `s`.
proof fn lemma_first_space_props(s: Seq<char>)
    ensures
        match spec_first_space(s) {
            None => forall|j: int| 0 <= j < s.len() ==> s[j] != ' ',
            Some(k) => 0 <= k < s.len() && s[k] == ' ' && forall|j: int| 0 <= j < k ==> s[j]
                != ' ',
        },
    decreases s.len(),
{
    if s.len() > 0 && s[0] != ' ' {
        let t = s.skip(1);
        lemma_first_space_props(t);
        match spec_first_space(t) {
            None => {
                assert forall|j: int| 0 <= j < s.len() implies s[j] != ' ' by {
                    if j > 0 {
                        assert(t[j - 1] == s[j]);
                    }
                }
            },
            Some(k) => {
                assert(t[k] == s[k + 1]);
                assert forall|j: int| 0 <= j < k + 1 implies s[j] != ' ' by {
                    if j > 0 {
                        assert(t[j - 1] == s[j]);
                    }
                }
            },
        }
    }
}

impl Header {
    /// A header from its two tokens.
    pub fn new(name: String, version: String) -> (r: Header)
        ensures
            r.name == name,
            r.version == version,
    {
        Header { name, version }
    }

    /// The identity line this header sends: `<name> <version>`.
    pub fn to_line(&self) -> (r: String)
        ensures
            r@ == spec_header_line(*self),
    {
        let mut line = String::new();
        line.append(self.name.as_str());
        line.append(" ");
        line.append(self.version.as_str());
        line
    }

    /// Parses an identity line into its two tokens.
    pub fn parse(line: &str) -> (r: Option<Header>)
        ensures
            match r {
                Some(h) => spec_parse_header(line@) == Some((h.name@, h.version@)),
                None => spec_parse_header(line@) is None,
            },
    {
        let len = line.unicode_len();
        let mut i: usize = 0;
        while i < len && line.get_char(i) != ' '
            invariant
                len == line@.len(),
                i <= len,
                forall|j: int| 0 <= j < i ==> line@[j] != ' ',
            decreases len - i,
        {
            i = i + 1;
        }
        if i == len {
            proof {
                lemma_first_space_none(line@);
            }
            return None;
        }
        proof {
            lemma_first_space_at(line@, i as int);
        }
        if i == 0 || i + 1 == len {
            return None;
        }
        let mut j: usize = i + 1;
        while j < len && line.get_char(j) != ' '
            invariant
                len == line@.len(),
                i + 1 <= j <= len,
                forall|k: int| i + 1 <= k < j ==> line@[k] != ' ',
            decreases len - j,
        {
            j = j + 1;
        }
        let ghost version_seq = line@.subrange(i + 1, len as int);
        if j < len {
            proof {
                assert(version_seq[j - i - 1] == ' ');
                lemma_first_space_props(version_seq);
            }
            return None;
        }
        proof {
            assert(forall|k: int|
                0 <= k < version_seq.len() ==> version_seq[k] == line@[k + i + 1] && version_seq[k]
                    != ' ');
            lemma_first_space_none(version_seq);
        }
        let name = String::from_str(line.substring_char(0, i));
        let version = String::from_str(line.substring_char(i + 1, len));
        Some(Header { name, version })
    }

    /// Whether the announced version is the protocol version this library
    /// speaks.
    pub fn compatible(&self) -> (r: bool)
        ensures
            r == (self.version@ == PROTOCOL_VERSION@),
    {
        str_eq(self.version.as_str(), PROTOCOL_VERSION)
    }
}

/// Encoding an identity line and parsing it back yields the original
/// (name, version) pair unchanged.
pub proof fn lemma_header_round_trip(h: Header)
    requires
        header_wf(h),
    ensures
        spec_parse_header(spec_header_line(h)) == Some((h.name@, h.version@)),
{
    let line = spec_header_line(h);
    reveal_strlit(" ");
    assert(line[h.name@.len() as int] == ' ');
    assert(forall|j: int| 0 <= j < h.name@.len() ==> line[j] == h.name@[j] && line[j] != ' ');
    lemma_first_space_at(line, h.name@.len() as int);
    let version = line.subrange(h.name@.len() as int + 1, line.len() as int);
    assert(version =~= h.version@);
    lemma_first_space_none(version);
    assert(line.subrange(0, h.name@.len() as int) =~= h.name@);
}

} // verus!
