use vstd::prelude::*;

use std::str::FromStr;

use crate::channel::{channel_named, Channel, ChannelError};

verus! {

#[derive(Debug, Clone, Copy, PartialEq, Eq, Structural)]
pub enum SeismometerOverrideError {
    /// No `=` between the seismometer name and the input.
    MissingPathSeparator,
    /// No `:` between the channel and the path.
    MissingChannelSeparator,
    /// The channel name is not one of the known channels.
    UnknownChannel(ChannelError),
}

#[derive(Debug, Clone, Copy, PartialEq, Eq, Structural)]
pub enum FlowDumpError {
    /// No `=` between the flow name and the path.
    MissingPathSeparator,
    MissingChannelSeparator,
}

/// `i` is the position of the first `c` in `s`.
pub open spec fn is_first(s: Seq<char>, c: char, i: int) -> bool {
    &&& 0 <= i < s.len()
    &&& s[i] == c
    &&& forall|j: int| 0 <= j < i ==> s[j] != c
}

/// `s` split around its first `c`, if it holds one.
pub open spec fn split_once(s: Seq<char>, c: char) -> Option<(Seq<char>, Seq<char>)> {
    if exists|i: int| is_first(s, c, i) {
        let i = choose|i: int| is_first(s, c, i);
        Some((s.take(i), s.skip(i + 1)))
    } else {
        None
    }
}

/// Split `s` around the first `c`.
pub fn split_once_char<'a>(s: &'a str, c: char) -> (r: Option<(&'a str, &'a str)>)
    ensures
        match split_once(s@, c) {
            Some((a, b)) => r matches Some((x, y)) && x@ == a && y@ == b,
            None => r is None,
        },
{
    let n = s.unicode_len();
    let mut i: usize = 0;
    while i < n
        invariant
            n == s@.len(),
            i <= n,
            forall|j: int| 0 <= j < i ==> s@[j] != c,
        decreases n - i,
    {
        if s.get_char(i) == c {
            proof {
                assert(is_first(s@, c, i as int));
                let k = choose|k: int| is_first(s@, c, k);
                assert(k == i);
            }
            let head = s.substring_char(0, i);
            let tail = s.substring_char(i + 1, n);
            proof {
                assert(head@ == s@.take(i as int));
                assert(tail@ == s@.skip(i + 1));
            }
            return Some((head, tail));
        }
        i = i + 1;
    }
    None
}

/// Pairs a text file with a seismometer, replacing that seismometer with a
/// data stream read from the file and reported as a given channel. Written
/// `seismometer=CHANNEL:path`.
#[derive(Debug, Clone)]
pub struct SeismometerTiedPath {
    pub seismometer_name: String,
    pub channel: Channel,
    pub path: String,
}

/// What `seismometer=CHANNEL:path` denotes: the name, the channel and the
/// path, or the first thing missing.
pub open spec fn spec_parse_tied_path(s: Seq<char>) -> Result<
    (Seq<char>, Channel, Seq<char>),
    SeismometerOverrideError,
> {
    match split_once(s, '=') {
        None => Err(SeismometerOverrideError::MissingPathSeparator),
        Some((sensor, after)) => match split_once(after, ':') {
            None => Err(SeismometerOverrideError::MissingChannelSeparator),
            Some((channel, path)) => match channel_named(channel) {
                None => Err(SeismometerOverrideError::UnknownChannel(ChannelError::NoSuchChannel)),
                Some(c) => Ok((sensor, c, path)),
            },
        },
    }
}

impl SeismometerTiedPath {
    pub fn parse(s: &str) -> (r: Result<SeismometerTiedPath, SeismometerOverrideError>)
        ensures
            match spec_parse_tied_path(s@) {
                Ok((name, c, path)) => r matches Ok(t) && t.seismometer_name@ == name && t.channel
                    == c && t.path@ == path,
                Err(e) => r == Err::<SeismometerTiedPath, SeismometerOverrideError>(e),
            },
    {
        let (sensor, after) = match split_once_char(s, '=') {
            Some(p) => p,
            None => {
                return Err(SeismometerOverrideError::MissingPathSeparator);
            },
        };
        let (channel, path) = match split_once_char(after, ':') {
            Some(p) => p,
            None => {
                return Err(SeismometerOverrideError::MissingChannelSeparator);
            },
        };
        let channel = match Channel::from_name(channel) {
            Ok(c) => c,
            Err(e) => {
                return Err(SeismometerOverrideError::UnknownChannel(e));
            },
        };
        Ok(
            SeismometerTiedPath {
                seismometer_name: sensor.to_owned(),
                channel,
                path: path.to_owned(),
            },
        )
    }
}

impl FromStr for SeismometerTiedPath {
    type Err = SeismometerOverrideError;

    fn from_str(s: &str) -> Result<SeismometerTiedPath, SeismometerOverrideError> {
        SeismometerTiedPath::parse(s)
    }
}

/// Pairs a file with a flow, to receive a copy of the flow's diagnostic
/// data. Written `flow=path`.
#[derive(Debug, Clone)]
pub struct FlowTiedPath {
    pub flow_name: String,
    pub path: String,
}

impl FlowTiedPath {
    pub fn parse(s: &str) -> (r: Result<FlowTiedPath, FlowDumpError>)
        ensures
            match split_once(s@, '=') {
                Some((name, path)) => r matches Ok(t) && t.flow_name@ == name && t.path@ == path,
                None => r == Err::<FlowTiedPath, FlowDumpError>(FlowDumpError::MissingPathSeparator),
            },
    {
        match split_once_char(s, '=') {
            Some((name, path)) => Ok(FlowTiedPath { flow_name: name.to_owned(), path: path.to_owned() }),
            None => Err(FlowDumpError::MissingPathSeparator),
        }
    }
}

impl FromStr for FlowTiedPath {
    type Err = FlowDumpError;

    fn from_str(s: &str) -> Result<FlowTiedPath, FlowDumpError> {
        FlowTiedPath::parse(s)
    }
}

} // verus!
