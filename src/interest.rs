use vstd::prelude::*;

use crate::channel::{channel_index, Channel, CHANNEL_COUNT};

verus! {

/// The channels a data source is asked to deliver: every channel until the
/// first subscription, then only those subscribed.
#[derive(Debug, Clone)]
pub struct ChannelInterest {
    /// Per dense channel index, whether it is wanted; none for all.
    pub channels: Option<Vec<bool>>,
}

impl ChannelInterest {
    pub open spec fn wf(&self) -> bool {
        self.channels matches Some(v) ==> v@.len() == CHANNEL_COUNT
    }

    pub open spec fn wants(&self, ch: Channel) -> bool {
        match self.channels {
            None => true,
            Some(v) => v@[channel_index(ch) as int],
        }
    }

    pub fn new() -> (r: ChannelInterest)
        ensures
            r.wf(),
            r.channels is None,
            forall|c: Channel| #[trigger] r.wants(c),
    {
        ChannelInterest { channels: None }
    }

    /// Declare interest in a channel; subscribing twice changes nothing.
    pub fn subscribe(&mut self, channel: Channel)
        requires
            old(self).wf(),
        ensures
            final(self).wf(),
            final(self).channels is Some,
            forall|c: Channel|
                #[trigger] final(self).wants(c) == (c == channel || (old(self).channels is Some
                    && old(self).wants(c))),
    {
        let mut wanted = match self.channels.take() {
            Some(v) => v,
            None => {
                let mut all_channels: Vec<bool> = Vec::new();
                let mut i: usize = 0;
                while i < Channel::max()
                    invariant
                        i <= CHANNEL_COUNT,
                        all_channels@.len() == i,
                        forall|j: int| 0 <= j < i ==> !(#[trigger] all_channels@[j]),
                    decreases CHANNEL_COUNT - i,
                {
                    all_channels.push(false);
                    i = i + 1;
                }
                all_channels
            },
        };
        let ghost before = wanted@;
        wanted.set(channel.index(), true);
        proof {
            assert forall|c: Channel| #[trigger] wanted@[channel_index(c) as int] == (c == channel || (
            old(self).channels is Some && old(self).wants(c))) by {
                if c != channel {
                    assert(channel_index(c) != channel_index(channel)) by {
                        crate::channel::lemma_channel_index_bijective(c, channel_index(channel) as int);
                    }
                }
            }
        }
        self.channels = Some(wanted);
    }

    /// Whether data of this channel is wanted.
    pub fn is_interested(&self, channel: Channel) -> (r: bool)
        requires
            self.wf(),
        ensures
            r == self.wants(channel),
    {
        match &self.channels {
            None => true,
            Some(v) => v[channel.index()],
        }
    }
}

} // verus!
