use vstd::prelude::*;

verus! {

/// Number of channels a seismometer can report.
pub const CHANNEL_COUNT: usize = 6;

#[derive(Debug, Clone, Copy, PartialEq, Eq, Structural)]
pub enum ChannelError {
    NoSuchChannel,
}

/// One of the physical measurement axes of a seismometer.
#[derive(Debug, Clone, Copy, PartialEq, Eq, Structural)]
pub enum Channel {
    Ehz,
    Ehn,
    Ehe,
    Enz,
    Enn,
    Ene,
}

/// Dense index of a channel, in declaration order.
pub open spec fn channel_index(c: Channel) -> nat {
    match c {
        Channel::Ehz => 0,
        Channel::Ehn => 1,
        Channel::Ehe => 2,
        Channel::Enz => 3,
        Channel::Enn => 4,
        Channel::Ene => 5,
    }
}

/// The channel with a given dense index, if any.
pub open spec fn channel_at(i: int) -> Option<Channel> {
    if i == 0 {
        Some(Channel::Ehz)
    } else if i == 1 {
        Some(Channel::Ehn)
    } else if i == 2 {
        Some(Channel::Ehe)
    } else if i == 3 {
        Some(Channel::Enz)
    } else if i == 4 {
        Some(Channel::Enn)
    } else if i == 5 {
        Some(Channel::Ene)
    } else {
        None
    }
}

/// The channel whose (upper-case) name is `s`, if any.
pub open spec fn channel_named(s: Seq<char>) -> Option<Channel> {
    if s == seq!['E', 'H', 'Z'] {
        Some(Channel::Ehz)
    } else if s == seq!['E', 'H', 'N'] {
        Some(Channel::Ehn)
    } else if s == seq!['E', 'H', 'E'] {
        Some(Channel::Ehe)
    } else if s == seq!['E', 'N', 'Z'] {
        Some(Channel::Enz)
    } else if s == seq!['E', 'N', 'N'] {
        Some(Channel::Enn)
    } else if s == seq!['E', 'N', 'E'] {
        Some(Channel::Ene)
    } else {
        None
    }
}

/// The index and the channel determine each other.
pub proof fn lemma_channel_index_bijective(c: Channel, i: int)
    ensures
        channel_index(c) < CHANNEL_COUNT,
        channel_at(channel_index(c) as int) == Some(c),
        channel_at(i) == Some(c) <==> i == channel_index(c),
        channel_at(i) is Some <==> 0 <= i < CHANNEL_COUNT,
{
}

impl Channel {
    /// Number of channels.
    pub fn max() -> (r: usize)
        ensures
            r == CHANNEL_COUNT,
    {
        CHANNEL_COUNT
    }

    /// Dense index of this channel.
    pub fn index(self) -> (r: usize)
        ensures
            r == channel_index(self),
            r < CHANNEL_COUNT,
    {
        match self {
            Channel::Ehz => 0,
            Channel::Ehn => 1,
            Channel::Ehe => 2,
            Channel::Enz => 3,
            Channel::Enn => 4,
            Channel::Ene => 5,
        }
    }

    /// The channel with dense index `value`.
    pub fn from_index(value: usize) -> (r: Result<Channel, ChannelError>)
        ensures
            match channel_at(value as int) {
                Some(c) => r == Ok::<Channel, ChannelError>(c),
                None => r == Err::<Channel, ChannelError>(ChannelError::NoSuchChannel),
            },
    {
        match value {
            0 => Ok(Channel::Ehz),
            1 => Ok(Channel::Ehn),
            2 => Ok(Channel::Ehe),
            3 => Ok(Channel::Enz),
            4 => Ok(Channel::Enn),
            5 => Ok(Channel::Ene),
            _ => Err(ChannelError::NoSuchChannel),
        }
    }

    /// The channel named `value`; only upper-case names are accepted.
    pub fn from_name(value: &str) -> (r: Result<Channel, ChannelError>)
        ensures
            match channel_named(value@) {
                Some(c) => r == Ok::<Channel, ChannelError>(c),
                None => r == Err::<Channel, ChannelError>(ChannelError::NoSuchChannel),
            },
    {
        let n = value.unicode_len();
        if n != 3 {
            return Err(ChannelError::NoSuchChannel);
        }
        let c0 = value.get_char(0);
        let c1 = value.get_char(1);
        let c2 = value.get_char(2);
        assert(value@ == seq![c0, c1, c2]);
        if c0 != 'E' {
            return Err(ChannelError::NoSuchChannel);
        }
        if c1 == 'H' {
            if c2 == 'Z' {
                Ok(Channel::Ehz)
            } else if c2 == 'N' {
                Ok(Channel::Ehn)
            } else if c2 == 'E' {
                Ok(Channel::Ehe)
            } else {
                Err(ChannelError::NoSuchChannel)
            }
        } else if c1 == 'N' {
            if c2 == 'Z' {
                Ok(Channel::Enz)
            } else if c2 == 'N' {
                Ok(Channel::Enn)
            } else if c2 == 'E' {
                Ok(Channel::Ene)
            } else {
                Err(ChannelError::NoSuchChannel)
            }
        } else {
            Err(ChannelError::NoSuchChannel)
        }
    }
}

impl From<Channel> for usize {
    fn from(value: Channel) -> (r: usize) {
        value.index()
    }
}

impl vstd::std_specs::convert::FromSpecImpl<Channel> for usize {
    open spec fn obeys_from_spec() -> bool {
        true
    }

    open spec fn from_spec(v: Channel) -> usize {
        channel_index(v) as usize
    }
}

impl TryFrom<usize> for Channel {
    type Error = ChannelError;

    fn try_from(value: usize) -> (r: Result<Channel, ChannelError>) {
        Channel::from_index(value)
    }
}

impl vstd::std_specs::convert::TryFromSpecImpl<usize> for Channel {
    open spec fn obeys_try_from_spec() -> bool {
        true
    }

    open spec fn try_from_spec(v: usize) -> Result<Channel, ChannelError> {
        match channel_at(v as int) {
            Some(c) => Ok(c),
            None => Err(ChannelError::NoSuchChannel),
        }
    }
}

impl<'a> TryFrom<&'a str> for Channel {
    type Error = ChannelError;

    fn try_from(value: &'a str) -> (r: Result<Channel, ChannelError>) {
        Channel::from_name(value)
    }
}

impl<'a> vstd::std_specs::convert::TryFromSpecImpl<&'a str> for Channel {
    open spec fn obeys_try_from_spec() -> bool {
        true
    }

    open spec fn try_from_spec(v: &'a str) -> Result<Channel, ChannelError> {
        match channel_named(v@) {
            Some(c) => Ok(c),
            None => Err(ChannelError::NoSuchChannel),
        }
    }
}

} // verus!
