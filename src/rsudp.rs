use vstd::prelude::*;

use vstd::string::StringSliceAdditionalSpecFns;

use crate::channel::{channel_named, Channel, ChannelError};
use crate::overrides::{split_once, split_once_char};

verus! {

#[derive(Debug, Clone, Copy, PartialEq, Eq, Structural)]
pub enum RSUDPError {
    PacketTooSmall,
    /// The packet is not delimited with curly braces.
    NotCurlyDelimited,
    /// No comma after the channel word.
    NoPartsFound,
    ChannelWordNotQuoted,
    EmptyChannelName,
    /// No comma after the timestamp.
    NothingAfterChannelName,
    UnsupportedChannelName(ChannelError),
    UnparsableTimestamp,
    UnparsableData,
}

/// Characters with the Unicode `White_Space` property.
pub open spec fn is_white(c: char) -> bool {
    ('\u{9}' <= c <= '\u{d}') || c == ' ' || c == '\u{85}' || c == '\u{a0}' || c == '\u{1680}'
        || ('\u{2000}' <= c <= '\u{200a}') || c == '\u{2028}' || c == '\u{2029}' || c == '\u{202f}'
        || c == '\u{205f}' || c == '\u{3000}'
}

/// `s[i..j]` is `s` without its leading and trailing white space.
pub open spec fn trims_to(s: Seq<char>, i: int, j: int) -> bool {
    &&& 0 <= i <= j <= s.len()
    &&& forall|k: int| 0 <= k < i ==> is_white(#[trigger] s[k])
    &&& forall|k: int| j <= k < s.len() ==> is_white(#[trigger] s[k])
    &&& i < j ==> !is_white(s[i]) && !is_white(s[j - 1])
}

/// `s` without leading and trailing white space.
pub open spec fn trim(s: Seq<char>) -> Seq<char> {
    let (i, j) = choose|i: int, j: int| trims_to(s, i, j);
    s.subrange(i, j)
}

proof fn lemma_trim_unique(s: Seq<char>, i: int, j: int)
    requires
        trims_to(s, i, j),
    ensures
        trim(s) == s.subrange(i, j),
{
    let (a, b) = choose|a: int, b: int| trims_to(s, a, b);
    if i < j {
        if a < i {
            assert(is_white(s[a]));
        }
        if i < a {
            assert(is_white(s[i]));
        }
        if a == b {
            assert(is_white(s[i]));
        }
        assert(a == i);
        if b < j {
            assert(is_white(s[j - 1]));
        }
        if j < b {
            assert(is_white(s[b - 1]));
        }
        assert(b == j);
    } else if a < b {
        assert(is_white(s[a]));
    }
}

pub fn is_white_char(c: char) -> (r: bool)
    ensures
        r == is_white(c),
{
    ('\u{9}' <= c && c <= '\u{d}') || c == ' ' || c == '\u{85}' || c == '\u{a0}' || c == '\u{1680}'
        || ('\u{2000}' <= c && c <= '\u{200a}') || c == '\u{2028}' || c == '\u{2029}' || c
        == '\u{202f}' || c == '\u{205f}' || c == '\u{3000}'
}

/// `s` without leading and trailing white space.
pub fn trim_white(s: &str) -> (r: &str)
    ensures
        r@ == trim(s@),
{
    let n = s.unicode_len();
    let mut i: usize = 0;
    while i < n && is_white_char(s.get_char(i))
        invariant
            n == s@.len(),
            i <= n,
            forall|k: int| 0 <= k < i ==> is_white(#[trigger] s@[k]),
        decreases n - i,
    {
        i = i + 1;
    }
    let mut j: usize = n;
    while j > i && is_white_char(s.get_char(j - 1))
        invariant
            n == s@.len(),
            i <= j <= n,
            forall|k: int| j <= k < n ==> is_white(#[trigger] s@[k]),
        decreases j,
    {
        j = j - 1;
    }
    proof {
        assert(trims_to(s@, i as int, j as int));
        lemma_trim_unique(s@, i as int, j as int);
    }
    s.substring_char(i, j)
}

/// The fields of an rsudp packet, `{'CHANNEL', timestamp, v1, v2, ...}`:
/// the channel, the timestamp as (trimmed) text, and the comma-separated
/// sample text.
#[derive(Debug, Clone)]
pub struct RSUDPFrame {
    pub channel: Channel,
    pub timestamp: String,
    pub data: String,
}

/// How a packet of `nbytes` UTF-8 bytes whose characters are `s` splits
/// into channel, timestamp text and sample text, or what is wrong with it.
pub open spec fn spec_frame(s: Seq<char>, nbytes: nat) -> Result<
    (Channel, Seq<char>, Seq<char>),
    RSUDPError,
> {
    if nbytes <= 2 {
        Err(RSUDPError::PacketTooSmall)
    } else if !(s.len() > 0 && s[0] == '{' && s.last() == '}') {
        Err(RSUDPError::NotCurlyDelimited)
    } else {
        match split_once(s.skip(1), ',') {
            None => Err(RSUDPError::NoPartsFound),
            Some((word_raw, rest)) => {
                let word = trim(word_raw);
                if !(word.len() > 0 && word[0] == '\'' && word.last() == '\'') {
                    Err(RSUDPError::ChannelWordNotQuoted)
                } else if word.len() <= 2 {
                    Err(RSUDPError::EmptyChannelName)
                } else {
                    match channel_named(word.subrange(1, word.len() - 1)) {
                        None => Err(RSUDPError::UnsupportedChannelName(ChannelError::NoSuchChannel)),
                        Some(c) => match split_once(rest, ',') {
                            None => Err(RSUDPError::NothingAfterChannelName),
                            Some((ts, tail)) => Ok((c, trim(ts), tail.take(tail.len() - 1))),
                        },
                    }
                }
            },
        }
    }
}

impl RSUDPFrame {
    /// Split a packet into its fields; the timestamp and the samples stay
    /// text, to be read as numbers by the caller.
    pub fn from_str(s: &str) -> (r: Result<RSUDPFrame, RSUDPError>)
        ensures
            match spec_frame(s@, s.spec_bytes().len()) {
                Ok((c, ts, data)) => r matches Ok(f) && f.channel == c && f.timestamp@ == ts
                    && f.data@ == data,
                Err(e) => r == Err::<RSUDPFrame, RSUDPError>(e),
            },
    {
        if s.as_bytes().len() <= 2 {
            return Err(RSUDPError::PacketTooSmall);
        }
        let n = s.unicode_len();
        if !(n > 0 && s.get_char(0) == '{' && s.get_char(n - 1) == '}') {
            return Err(RSUDPError::NotCurlyDelimited);
        }
        let body = s.substring_char(1, n);
        proof {
            assert(body@ == s@.skip(1));
        }
        let (word_raw, rest) = match split_once_char(body, ',') {
            Some(p) => p,
            None => {
                return Err(RSUDPError::NoPartsFound);
            },
        };
        let word = trim_white(word_raw);
        let w = word.unicode_len();
        if !(w > 0 && word.get_char(0) == '\'' && word.get_char(w - 1) == '\'') {
            return Err(RSUDPError::ChannelWordNotQuoted);
        }
        if w <= 2 {
            return Err(RSUDPError::EmptyChannelName);
        }
        let name = word.substring_char(1, w - 1);
        let channel = match Channel::from_name(name) {
            Ok(c) => c,
            Err(e) => {
                return Err(RSUDPError::UnsupportedChannelName(e));
            },
        };
        let (ts, tail) = match split_once_char(rest, ',') {
            Some(p) => p,
            None => {
                return Err(RSUDPError::NothingAfterChannelName);
            },
        };
        proof {
            let (ts_s, tail_s) = split_once(rest@, ',')->0;
            let i = choose|i: int| crate::overrides::is_first(rest@, ',', i);
            assert(tail_s == rest@.skip(i + 1));
            let (wr, rs) = split_once(s@.skip(1), ',')->0;
            let k = choose|k: int| crate::overrides::is_first(s@.skip(1), ',', k);
            assert(rs == s@.skip(1).skip(k + 1));
            assert(rs.len() > 0 ==> rs.last() == s@.last());
            assert(rs.last() == '}') by {
                assert(s@.skip(1).last() == '}');
                assert(s@.skip(1)[k] == ',');
            }
            assert(tail_s.last() == '}') by {
                assert(rest@[i] == ',');
            }
        }
        let t = tail.unicode_len();
        let data = tail.substring_char(0, t - 1);
        Ok(RSUDPFrame { channel, timestamp: trim_white(ts).to_owned(), data: data.to_owned() })
    }
}

} // verus!
