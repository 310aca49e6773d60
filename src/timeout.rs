use vstd::prelude::*;

use crate::channel::Channel;

verus! {

/// Liveness of a tracked channel.
#[derive(Debug, Clone, Copy, PartialEq, Eq, Structural)]
pub enum Liveness {
    /// Not seen since tracking started; counts as alive for timeouts.
    Unknown,
    Alive,
    Dead,
}

/// Bookkeeping of one tracked channel. Times are nanoseconds on a monotonic
/// clock.
#[derive(Debug, Clone, Copy, PartialEq, Eq, Structural)]
pub struct ChannelState {
    pub channel: Channel,
    /// When data was last seen (or tracking started).
    pub as_of: Option<u64>,
    pub alive: Liveness,
}

/// The channel still counts towards the next deadline.
pub open spec fn not_dead(c: ChannelState) -> bool {
    c.alive != Liveness::Dead
}

pub open spec fn any_not_dead(s: Seq<ChannelState>) -> bool {
    exists|i: int| 0 <= i < s.len() && not_dead(#[trigger] s[i])
}

/// `t` is the earliest last-seen time among the channels that are not dead.
pub open spec fn is_oldest_not_dead(s: Seq<ChannelState>, t: u64) -> bool {
    &&& exists|i: int| 0 <= i < s.len() && not_dead(#[trigger] s[i]) && s[i].as_of == Some(t)
    &&& forall|i: int|
        0 <= i < s.len() && not_dead(#[trigger] s[i]) ==> (s[i].as_of matches Some(u) && t <= u)
}

pub open spec fn oldest_not_dead(s: Seq<ChannelState>) -> u64 {
    choose|t: u64| is_oldest_not_dead(s, t)
}

/// Time between `earlier` and `now`, zero if `now` is not later.
pub open spec fn elapsed(now: u64, earlier: u64) -> int {
    if now >= earlier {
        now - earlier
    } else {
        0
    }
}

/// How long to wait from `now` until `timeout` has passed since `since`.
pub open spec fn remaining(timeout: u64, now: u64, since: u64) -> u64 {
    if elapsed(now, since) >= timeout {
        0
    } else {
        (timeout - elapsed(now, since)) as u64
    }
}

/// The channel has been silent for longer than `timeout` at `now`.
pub open spec fn is_expired(c: ChannelState, now: u64, timeout: u64) -> bool {
    &&& not_dead(c)
    &&& (c.as_of matches Some(t) && t + timeout < now)
}

/// A channel state marked dead.
pub open spec fn mark_dead(c: ChannelState) -> ChannelState {
    ChannelState { alive: Liveness::Dead, ..c }
}

/// The states that expire at `now`, in tracking order, as marked dead.
pub open spec fn expired_states(s: Seq<ChannelState>, now: u64, timeout: u64) -> Seq<ChannelState>
    decreases s.len(),
{
    if s.len() == 0 {
        seq![]
    } else {
        let early = expired_states(s.drop_last(), now, timeout);
        if is_expired(s.last(), now, timeout) {
            early.push(mark_dead(s.last()))
        } else {
            early
        }
    }
}

/// The states after expiring at `now`.
pub open spec fn after_expiry(s: Seq<ChannelState>, now: u64, timeout: u64) -> Seq<ChannelState> {
    Seq::new(
        s.len(),
        |i: int|
            if is_expired(s[i], now, timeout) {
                mark_dead(s[i])
            } else {
                s[i]
            },
    )
}

pub open spec fn tracks(s: Seq<ChannelState>, ch: Channel) -> bool {
    exists|i: int| 0 <= i < s.len() && (#[trigger] s[i]).channel == ch
}

/// Position of a tracked channel.
pub open spec fn slot(s: Seq<ChannelState>, ch: Channel) -> int {
    choose|i: int| 0 <= i < s.len() && (#[trigger] s[i]).channel == ch
}

/// Each channel is tracked at most once.
pub open spec fn channels_unique(s: Seq<ChannelState>) -> bool {
    forall|i: int, j: int|
        0 <= i < s.len() && 0 <= j < s.len() && i != j ==> (#[trigger] s[i]).channel != (
        #[trigger] s[j]).channel
}

/// Every tracked channel has a last-seen time.
pub open spec fn all_started(s: Seq<ChannelState>) -> bool {
    forall|i: int| 0 <= i < s.len() ==> (#[trigger] s[i]).as_of is Some
}

/// Per-channel last-seen bookkeeping, and the deadline by which the next
/// channel would time out.
pub struct ChannelChecker {
    /// How long a channel may stay silent, in nanoseconds; none for never.
    pub timeout: Option<u64>,
    pub channel_states: Vec<ChannelState>,
}

impl ChannelChecker {
    pub open spec fn wf(&self) -> bool {
        channels_unique(self.channel_states@)
    }

    pub open spec fn started(&self) -> bool {
        all_started(self.channel_states@)
    }

    /// The deadline `next_timeout` reports at `now`.
    pub open spec fn spec_next_timeout(&self, now: u64) -> Option<u64> {
        match self.timeout {
            None => None,
            Some(timeout) => if any_not_dead(self.channel_states@) {
                Some(remaining(timeout, now, oldest_not_dead(self.channel_states@)))
            } else {
                None
            },
        }
    }

    /// The states after `mark_channel_alive(now, ch)`.
    pub open spec fn spec_mark_alive(&self, now: u64, ch: Channel) -> Seq<ChannelState> {
        let s = self.channel_states@;
        if tracks(s, ch) {
            s.update(slot(s, ch), ChannelState { channel: ch, as_of: Some(now), alive: Liveness::Alive })
        } else {
            s
        }
    }

    /// What `mark_channel_alive(now, ch)` returns: whether the channel was
    /// alive already (an untracked channel counts as alive).
    pub open spec fn spec_was_alive(&self, ch: Channel) -> bool {
        let s = self.channel_states@;
        tracks(s, ch) ==> s[slot(s, ch)].alive == Liveness::Alive
    }

    pub fn new_for_timeout(timeout: Option<u64>) -> (r: ChannelChecker)
        ensures
            r.timeout == timeout,
            r.channel_states@.len() == 0,
            r.wf(),
            r.started(),
    {
        ChannelChecker { timeout, channel_states: Vec::new() }
    }

    /// Start tracking a channel; tracking it again changes nothing.
    pub fn track_channel(&mut self, channel: Channel)
        requires
            old(self).wf(),
        ensures
            final(self).wf(),
            final(self).timeout == old(self).timeout,
            tracks(old(self).channel_states@, channel) ==> final(self).channel_states@ == old(
                self,
            ).channel_states@,
            !tracks(old(self).channel_states@, channel) ==> final(self).channel_states@ == old(
                self,
            ).channel_states@.push(ChannelState { channel, as_of: None, alive: Liveness::Unknown }),
    {
        let mut i: usize = 0;
        while i < self.channel_states.len()
            invariant
                i <= self.channel_states@.len(),
                self.channel_states@ == old(self).channel_states@,
                self.timeout == old(self).timeout,
                channels_unique(self.channel_states@),
                forall|j: int| 0 <= j < i ==> (#[trigger] self.channel_states@[j]).channel != channel,
            decreases self.channel_states@.len() - i,
        {
            if self.channel_states[i].channel == channel {
                return;
            }
            i = i + 1;
        }
        self.channel_states.push(ChannelState { channel, as_of: None, alive: Liveness::Unknown });
    }

    /// Count every tracked channel as last seen at `when`.
    pub fn start(&mut self, when: u64)
        requires
            old(self).wf(),
        ensures
            final(self).wf(),
            final(self).started(),
            final(self).timeout == old(self).timeout,
            final(self).channel_states@.len() == old(self).channel_states@.len(),
            forall|i: int|
                0 <= i < old(self).channel_states@.len() ==> #[trigger] final(self).channel_states@[i]
                    == (ChannelState { as_of: Some(when), ..old(self).channel_states@[i] }),
    {
        let ghost before = self.channel_states@;
        let mut i: usize = 0;
        while i < self.channel_states.len()
            invariant
                i <= self.channel_states@.len(),
                self.channel_states@.len() == before.len(),
                self.timeout == old(self).timeout,
                forall|j: int|
                    0 <= j < i ==> #[trigger] self.channel_states@[j] == (ChannelState {
                        as_of: Some(when),
                        ..before[j]
                    }),
                forall|j: int| i <= j < before.len() ==> #[trigger] self.channel_states@[j] == before[j],
            decreases self.channel_states@.len() - i,
        {
            let c = self.channel_states[i];
            self.channel_states.set(i, ChannelState { as_of: Some(when), ..c });
            i = i + 1;
        }
        assert(forall|a: int, b: int|
            0 <= a < before.len() && 0 <= b < before.len() && a != b ==> #[trigger] self.channel_states@[a].channel
                == before[a].channel && #[trigger] self.channel_states@[b].channel == before[b].channel);
    }

    /// The earliest last-seen time among the channels that are not dead.
    fn oldest_not_dead(&self) -> (r: Option<u64>)
        requires
            self.started(),
        ensures
            r is None <==> !any_not_dead(self.channel_states@),
            r matches Some(t) ==> is_oldest_not_dead(self.channel_states@, t),
    {
        let s = &self.channel_states;
        let mut oldest: Option<u64> = None;
        let mut i: usize = 0;
        while i < s.len()
            invariant
                i <= s@.len(),
                all_started(s@),
                oldest is None <==> !any_not_dead(s@.take(i as int)),
                oldest matches Some(t) ==> is_oldest_not_dead(s@.take(i as int), t),
            decreases s@.len() - i,
        {
            let c = s[i];
            proof {
                let p = s@.take(i as int);
                let q = s@.take(i as int + 1);
                assert(forall|j: int| 0 <= j < i ==> #[trigger] q[j] == p[j]);
                assert(q[i as int] == c);
                if any_not_dead(q) {
                    let j = choose|j: int| 0 <= j < q.len() && not_dead(#[trigger] q[j]);
                    if j < i {
                        assert(not_dead(p[j]));
                    }
                }
            }
            if c.alive != Liveness::Dead {
                let t = match c.as_of {
                    Some(t) => t,
                    None => {
                        proof {
                            assert(s@[i as int].as_of is Some);
                        }
                        0
                    },
                };
                match oldest {
                    Some(o) => {
                        if t < o {
                            oldest = Some(t);
                        }
                    },
                    None => {
                        oldest = Some(t);
                    },
                }
            }
            proof {
                let p = s@.take(i as int);
                let q = s@.take(i as int + 1);
                assert(q[i as int] == c);
                assert(forall|j: int| 0 <= j < i ==> #[trigger] q[j] == p[j]);
                if not_dead(c) {
                    assert(any_not_dead(q));
                }
            }
            i = i + 1;
        }
        proof {
            assert(s@.take(s@.len() as int) == s@);
        }
        oldest
    }

    /// Mark a channel as seen at `now`; returns whether it was alive already.
    /// An untracked channel is left alone and reported as alive.
    pub fn mark_channel_alive(&mut self, when: u64, channel: Channel) -> (r: bool)
        requires
            old(self).wf(),
        ensures
            final(self).wf(),
            final(self).timeout == old(self).timeout,
            final(self).channel_states@ == old(self).spec_mark_alive(when, channel),
            r == old(self).spec_was_alive(channel),
            !tracks(old(self).channel_states@, channel) ==> r && final(self).channel_states@ == old(
                self,
            ).channel_states@,
            old(self).started() ==> final(self).started(),
    {
        let ghost before = self.channel_states@;
        let mut i: usize = 0;
        while i < self.channel_states.len()
            invariant
                i <= self.channel_states@.len(),
                self.channel_states@ == before,
                before == old(self).channel_states@,
                self.timeout == old(self).timeout,
                channels_unique(before),
                forall|j: int| 0 <= j < i ==> (#[trigger] before[j]).channel != channel,
            decreases self.channel_states@.len() - i,
        {
            if self.channel_states[i].channel == channel {
                let was = self.channel_states[i].alive;
                self.channel_states.set(
                    i,
                    ChannelState { channel, as_of: Some(when), alive: Liveness::Alive },
                );
                proof {
                    assert(tracks(before, channel));
                    let k = slot(before, channel);
                    assert(k == i as int);
                    assert(forall|a: int|
                        0 <= a < before.len() && a != i ==> #[trigger] self.channel_states@[a]
                            == before[a]);
                }
                return was == Liveness::Alive;
            }
            i = i + 1;
        }
        true
    }

    /// How long to wait from `now` before some channel could time out: none
    /// when no timeout is configured or every channel is dead, zero once the
    /// earliest channel that is not dead has been silent for the timeout.
    pub fn next_timeout(&self, now: u64) -> (r: Option<u64>)
        requires
            self.started(),
        ensures
            r == self.spec_next_timeout(now),
            self.timeout is None ==> r is None,
            (self.timeout matches Some(to) && any_not_dead(self.channel_states@) && now
                >= oldest_not_dead(self.channel_states@) + to) ==> r == Some(0u64),
    {
        let timeout = match self.timeout {
            Some(t) => t,
            None => {
                return None;
            },
        };
        let oldest = match self.oldest_not_dead() {
            Some(t) => t,
            None => {
                return None;
            },
        };
        proof {
            let s = self.channel_states@;
            let c = oldest_not_dead(s);
            assert(is_oldest_not_dead(s, c));
            let a = choose|i: int| 0 <= i < s.len() && not_dead(#[trigger] s[i]) && s[i].as_of == Some(oldest);
            let b = choose|i: int| 0 <= i < s.len() && not_dead(#[trigger] s[i]) && s[i].as_of == Some(c);
            assert(oldest <= c);
            assert(c <= oldest);
        }
        let elapsed: u64 = if now >= oldest {
            now - oldest
        } else {
            0
        };
        if elapsed >= timeout {
            Some(0)
        } else {
            Some(timeout - elapsed)
        }
    }

    /// Mark every channel that is not dead and has been silent for longer
    /// than the timeout as dead, and return those states in tracking order.
    pub fn timeout_iter(&mut self, now: u64) -> (r: Vec<ChannelState>)
        requires
            old(self).wf(),
            old(self).started(),
            old(self).timeout is Some,
        ensures
            final(self).wf(),
            final(self).started(),
            final(self).timeout == old(self).timeout,
            final(self).channel_states@ == after_expiry(
                old(self).channel_states@,
                now,
                old(self).timeout->0,
            ),
            r@ == expired_states(old(self).channel_states@, now, old(self).timeout->0),
    {
        let timeout = match self.timeout {
            Some(t) => t,
            None => 0,
        };
        let ghost before = self.channel_states@;
        let mut out: Vec<ChannelState> = Vec::new();
        let mut i: usize = 0;
        while i < self.channel_states.len()
            invariant
                i <= self.channel_states@.len(),
                self.channel_states@.len() == before.len(),
                self.timeout == old(self).timeout,
                all_started(before),
                forall|j: int|
                    0 <= j < i ==> #[trigger] self.channel_states@[j] == (if is_expired(
                        before[j],
                        now,
                        timeout,
                    ) {
                        mark_dead(before[j])
                    } else {
                        before[j]
                    }),
                forall|j: int| i <= j < before.len() ==> #[trigger] self.channel_states@[j] == before[j],
                out@ == expired_states(before.take(i as int), now, timeout),
            decreases self.channel_states@.len() - i,
        {
            proof {
                let q = before.take(i as int + 1);
                assert(q.drop_last() == before.take(i as int));
                assert(q.last() == before[i as int]);
            }
            let c = self.channel_states[i];
            let expired = match c.as_of {
                Some(t) => c.alive != Liveness::Dead && (t as u128) + (timeout as u128) < (now as u128),
                None => false,
            };
            if expired {
                let dead = ChannelState { alive: Liveness::Dead, ..c };
                self.channel_states.set(i, dead);
                out.push(dead);
            }
            i = i + 1;
        }
        proof {
            assert(before.take(before.len() as int) == before);
            assert(self.channel_states@ == after_expiry(before, now, timeout));
            assert(forall|a: int|
                0 <= a < before.len() ==> #[trigger] self.channel_states@[a].channel
                    == before[a].channel);
        }
        out
    }
}

/// With no timeout configured, no deadline is ever reported, whatever the
/// time and whatever is tracked.
pub proof fn lemma_no_timeout_waits_forever(c: ChannelChecker, now: u64)
    requires
        c.timeout is None,
    ensures
        c.spec_next_timeout(now) is None,
{
}

/// Once the earliest channel that is not dead has been silent for the whole
/// timeout, the reported deadline is zero.
pub proof fn lemma_deadline_reached(c: ChannelChecker, now: u64)
    requires
        c.timeout is Some,
        any_not_dead(c.channel_states@),
        now - oldest_not_dead(c.channel_states@) >= c.timeout->0,
    ensures
        c.spec_next_timeout(now) == Some(0u64),
{
}

/// Marking an untracked channel reports it alive and changes nothing.
pub proof fn lemma_untracked_channel_ignored(c: ChannelChecker, now: u64, ch: Channel)
    requires
        !tracks(c.channel_states@, ch),
    ensures
        c.spec_was_alive(ch),
        c.spec_mark_alive(now, ch) == c.channel_states@,
{
}

} // verus!
