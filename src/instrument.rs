use vstd::prelude::*;

use crate::binary32::Binary32;
use crate::channel::{channel_index, Channel, CHANNEL_COUNT};
use crate::event::{Event, TriggerMessage};
use crate::flow::{
    alternates, last_announced, lemma_alternates_append, lemma_process_alternates, message,
    FlowState, TriggerLatch,
};
use crate::threshold::ThresholdTrigger;
use crate::timeout::{
    after_expiry, expired_states, tracks, slot, ChannelChecker, ChannelState, Liveness,
};

verus! {

/// What one flow announces when a batch arrives on its channel: if the
/// channel was not alive before, `Available` and (through the latch) `Reset`
/// come first; then the announcements of the batch itself.
pub open spec fn flow_on_data(f: FlowState, already_alive: bool, energy: Seq<Binary32>) -> (
    FlowState,
    Seq<TriggerMessage>,
) {
    if already_alive {
        f.spec_process(energy)
    } else {
        let (f1, reset) = f.spec_reset();
        let (f2, batch) = f1.spec_process(energy);
        (f2, seq![message(f.flow_id, Event::Available)] + reset + batch)
    }
}

/// [`flow_on_data`] over the flows of a channel, in order, each with its own
/// energy signal.
pub open spec fn flows_on_data(
    fs: Seq<FlowState>,
    already_alive: bool,
    es: Seq<Seq<Binary32>>,
) -> (Seq<FlowState>, Seq<TriggerMessage>)
    decreases fs.len(),
{
    if fs.len() == 0 {
        (seq![], seq![])
    } else {
        let (early_fs, early) = flows_on_data(fs.drop_last(), already_alive, es.drop_last());
        let (f, late) = flow_on_data(fs.last(), already_alive, es.last());
        (early_fs.push(f), early + late)
    }
}

/// `Unavailable` for each of the flows, in order.
pub open spec fn unavailable_for(fs: Seq<FlowState>) -> Seq<TriggerMessage> {
    Seq::new(fs.len(), |k: int| message(fs[k].flow_id, Event::Unavailable))
}

/// `Unavailable` for every flow of every expired channel, channel by channel.
pub open spec fn unavailable_msgs(table: Seq<Seq<FlowState>>, expired: Seq<ChannelState>) -> Seq<
    TriggerMessage,
>
    decreases expired.len(),
{
    if expired.len() == 0 {
        seq![]
    } else {
        unavailable_msgs(table, expired.drop_last()) + unavailable_for(
            table[channel_index(expired.last().channel) as int],
        )
    }
}

/// The announcements after a silent channel comes back, when no flow of it
/// had announced `Reset` last: for each flow, `Available`, `Reset`, then what
/// the batch calls for.
pub open spec fn reconnect_msgs(fs: Seq<FlowState>, es: Seq<Seq<Binary32>>) -> Seq<TriggerMessage>
    decreases fs.len(),
{
    if fs.len() == 0 {
        seq![]
    } else {
        let f = fs.last();
        reconnect_msgs(fs.drop_last(), es.drop_last()) + seq![
            message(f.flow_id, Event::Available),
            message(f.flow_id, Event::Reset),
        ] + FlowState { latch: TriggerLatch::Reset, ..f }.spec_process(es.last()).1
    }
}

pub open spec fn energy_view(es: Seq<Vec<Binary32>>) -> Seq<Seq<Binary32>> {
    es.map_values(|v: Vec<Binary32>| v@)
}

/// Every flow can take its batch without its sample count overflowing.
pub open spec fn batches_fit(fs: Seq<FlowState>, es: Seq<Seq<Binary32>>) -> bool {
    &&& es.len() == fs.len()
    &&& forall|k: int| 0 <= k < fs.len() ==> #[trigger] fs[k].threshold.processed + es[k].len() <= usize::MAX
}

/// The decisions of one instrument: the flows attached to each channel and
/// the liveness of the channels.
pub struct InstrumentLoop {
    /// Flows by dense channel index.
    pub flows_for_channel: Vec<Vec<FlowState>>,
    pub timeouts_by_channel: ChannelChecker,
}

impl InstrumentLoop {
    pub open spec fn wf(&self) -> bool {
        &&& self.flows_for_channel@.len() == CHANNEL_COUNT
        &&& self.timeouts_by_channel.wf()
    }

    pub open spec fn flow_table(&self) -> Seq<Seq<FlowState>> {
        self.flows_for_channel@.map_values(|v: Vec<FlowState>| v@)
    }

    pub open spec fn flows_of(&self, ch: Channel) -> Seq<FlowState> {
        self.flow_table()[channel_index(ch) as int]
    }

    /// An instrument without flows; `timeout` is how long a channel may stay
    /// silent, in nanoseconds, none for never.
    pub fn new_for_timeout(timeout: Option<u64>) -> (r: InstrumentLoop)
        ensures
            r.wf(),
            r.timeouts_by_channel.timeout == timeout,
            r.timeouts_by_channel.channel_states@.len() == 0,
            forall|i: int| 0 <= i < CHANNEL_COUNT ==> (#[trigger] r.flow_table()[i]).len() == 0,
    {
        let mut flows_for_channel: Vec<Vec<FlowState>> = Vec::new();
        let mut i: usize = 0;
        while i < Channel::max()
            invariant
                i <= CHANNEL_COUNT,
                flows_for_channel@.len() == i,
                forall|j: int| 0 <= j < i ==> (#[trigger] flows_for_channel@[j])@.len() == 0,
            decreases CHANNEL_COUNT - i,
        {
            flows_for_channel.push(Vec::new());
            i = i + 1;
        }
        InstrumentLoop {
            flows_for_channel,
            timeouts_by_channel: ChannelChecker::new_for_timeout(timeout),
        }
    }

    /// Attach a flow, with its trigger, to a channel, and track the channel.
    pub fn add_flow(&mut self, flow_id: usize, channel: Channel, threshold: ThresholdTrigger)
        requires
            old(self).wf(),
        ensures
            final(self).wf(),
            tracks(final(self).timeouts_by_channel.channel_states@, channel),
            final(self).flow_table() == old(self).flow_table().update(
                channel_index(channel) as int,
                old(self).flows_of(channel).push(
                    FlowState { flow_id, threshold, latch: TriggerLatch::Unknown },
                ),
            ),
            final(self).timeouts_by_channel.timeout == old(self).timeouts_by_channel.timeout,
    {
        self.timeouts_by_channel.track_channel(channel);
        let ci = channel.index();
        let mut flows = self.flows_for_channel[ci].clone();
        proof {
            assert(flows@ == old(self).flows_for_channel@[ci as int]@);
        }
        flows.push(FlowState::new(flow_id, threshold));
        self.flows_for_channel.set(ci, flows);
        proof {
            let s = old(self).timeouts_by_channel.channel_states@;
            if !tracks(s, channel) {
                let t = final(self).timeouts_by_channel.channel_states@;
                assert(t[s.len() as int].channel == channel);
            }
            assert(self.flow_table() =~= old(self).flow_table().update(
                ci as int,
                old(self).flows_of(channel).push(
                    FlowState { flow_id, threshold, latch: TriggerLatch::Unknown },
                ),
            ));
        }
    }

    /// Count every tracked channel as last seen at `when`; called once,
    /// before the first deadline is asked for.
    pub fn start(&mut self, when: u64)
        requires
            old(self).wf(),
        ensures
            final(self).wf(),
            final(self).timeouts_by_channel.started(),
            final(self).flows_for_channel@ == old(self).flows_for_channel@,
            final(self).timeouts_by_channel.timeout == old(self).timeouts_by_channel.timeout,
    {
        self.timeouts_by_channel.start(when);
    }

    /// How long to wait from `now` before some channel could time out, none
    /// for waiting forever.
    pub fn next_timeout(&self, now: u64) -> (r: Option<u64>)
        requires
            self.timeouts_by_channel.started(),
        ensures
            r == self.timeouts_by_channel.spec_next_timeout(now),
    {
        self.timeouts_by_channel.next_timeout(now)
    }

    /// Whether the flows of `channel` can take these energy batches (one per
    /// flow, without overflowing a sample count).
    pub fn accepts(&self, channel: Channel, energies: &Vec<Vec<Binary32>>) -> (r: bool)
        requires
            self.wf(),
        ensures
            r == batches_fit(self.flows_of(channel), energy_view(energies@)),
    {
        let ci = channel.index();
        let flows = &self.flows_for_channel[ci];
        if energies.len() != flows.len() {
            return false;
        }
        let mut k: usize = 0;
        while k < flows.len()
            invariant
                k <= flows@.len(),
                energies@.len() == flows@.len(),
                flows@ == self.flows_of(channel),
                forall|j: int|
                    0 <= j < k ==> #[trigger] flows@[j].threshold.processed + energies@[j]@.len()
                        <= usize::MAX,
            decreases flows@.len() - k,
        {
            if flows[k].threshold.processed > usize::MAX - energies[k].len() {
                return false;
            }
            k = k + 1;
        }
        true
    }

    /// A batch arrived on `channel` at `now`; `energies` holds, for each flow
    /// of the channel in order, the batch as that flow's energy signal.
    /// Returns the announcements, in order.
    pub fn handle_data(&mut self, now: u64, channel: Channel, energies: &Vec<Vec<Binary32>>) -> (r:
        Vec<TriggerMessage>)
        requires
            old(self).wf(),
            batches_fit(old(self).flows_of(channel), energy_view(energies@)),
        ensures
            final(self).wf(),
            final(self).timeouts_by_channel.timeout == old(self).timeouts_by_channel.timeout,
            final(self).timeouts_by_channel.channel_states@
                == old(self).timeouts_by_channel.spec_mark_alive(now, channel),
            old(self).timeouts_by_channel.started() ==> final(self).timeouts_by_channel.started(),
            final(self).flow_table() == old(self).flow_table().update(
                channel_index(channel) as int,
                flows_on_data(
                    old(self).flows_of(channel),
                    old(self).timeouts_by_channel.spec_was_alive(channel),
                    energy_view(energies@),
                ).0,
            ),
            r@ == flows_on_data(
                old(self).flows_of(channel),
                old(self).timeouts_by_channel.spec_was_alive(channel),
                energy_view(energies@),
            ).1,
    {
        let ci = channel.index();
        let already = self.timeouts_by_channel.mark_channel_alive(now, channel);
        let ghost fs = old(self).flows_of(channel);
        let ghost es = energy_view(energies@);
        let mut out: Vec<TriggerMessage> = Vec::new();
        let mut updated: Vec<FlowState> = Vec::new();
        let n = self.flows_for_channel[ci].len();
        let mut k: usize = 0;
        while k < n
            invariant
                self.flows_for_channel@ == old(self).flows_for_channel@,
                self.flows_for_channel@.len() == CHANNEL_COUNT,
                ci == channel_index(channel),
                fs == self.flows_for_channel@[ci as int]@,
                n == fs.len(),
                k <= n,
                es == energy_view(energies@),
                batches_fit(fs, es),
                (updated@, out@) == flows_on_data(fs.take(k as int), already, es.take(k as int)),
            decreases n - k,
        {
            proof {
                assert(fs.take(k as int + 1).drop_last() == fs.take(k as int));
                assert(es.take(k as int + 1).drop_last() == es.take(k as int));
                assert(fs.take(k as int + 1).last() == fs[k as int]);
                assert(es.take(k as int + 1).last() == es[k as int]);
                assert(es[k as int] == energies@[k as int]@);
            }
            let mut f = self.flows_for_channel[ci][k];
            let ghost out0 = out@;
            if !already {
                out.push(f.available());
                match f.reset() {
                    Some(m) => out.push(m),
                    None => {},
                }
            }
            let ghost out1 = out@;
            let mut ms = f.process(&energies[k]);
            out.append(&mut ms);
            updated.push(f);
            proof {
                let (fa, msa) = flow_on_data(fs[k as int], already, es[k as int]);
                if already {
                    assert(out1 == out0);
                } else {
                    assert(out1 == out0 + seq![message(fs[k as int].flow_id, Event::Available)]
                        + fs[k as int].spec_reset().1);
                }
                assert(out@ == out0 + msa);
            }
            k = k + 1;
        }
        proof {
            assert(fs.take(n as int) == fs);
            assert(es.take(n as int) == es);
        }
        self.flows_for_channel.set(ci, updated);
        proof {
            assert(self.flow_table() =~= old(self).flow_table().update(
                ci as int,
                flows_on_data(fs, already, es).0,
            ));
        }
        out
    }

    /// The timeout deadline passed at `now`: expire the silent channels and
    /// announce `Unavailable` for every flow of each.
    pub fn handle_timeout(&mut self, now: u64) -> (r: Vec<TriggerMessage>)
        requires
            old(self).wf(),
            old(self).timeouts_by_channel.started(),
            old(self).timeouts_by_channel.timeout is Some,
        ensures
            final(self).wf(),
            final(self).timeouts_by_channel.started(),
            final(self).timeouts_by_channel.timeout == old(self).timeouts_by_channel.timeout,
            final(self).timeouts_by_channel.channel_states@ == after_expiry(
                old(self).timeouts_by_channel.channel_states@,
                now,
                old(self).timeouts_by_channel.timeout->0,
            ),
            final(self).flows_for_channel@ == old(self).flows_for_channel@,
            r@ == unavailable_msgs(
                old(self).flow_table(),
                expired_states(
                    old(self).timeouts_by_channel.channel_states@,
                    now,
                    old(self).timeouts_by_channel.timeout->0,
                ),
            ),
    {
        let expired = self.timeouts_by_channel.timeout_iter(now);
        let ghost table = self.flow_table();
        let mut out: Vec<TriggerMessage> = Vec::new();
        let mut i: usize = 0;
        while i < expired.len()
            invariant
                i <= expired@.len(),
                self.flows_for_channel@.len() == CHANNEL_COUNT,
                table == self.flow_table(),
                out@ == unavailable_msgs(table, expired@.take(i as int)),
            decreases expired@.len() - i,
        {
            let ci = expired[i].channel.index();
            let flows = &self.flows_for_channel[ci];
            let ghost out0 = out@;
            let mut k: usize = 0;
            while k < flows.len()
                invariant
                    k <= flows@.len(),
                    flows@ == table[ci as int],
                    out@ == out0 + unavailable_for(flows@.take(k as int)),
                decreases flows@.len() - k,
            {
                out.push(flows[k].unavailable());
                proof {
                    assert(unavailable_for(flows@.take(k as int + 1)) =~= unavailable_for(
                        flows@.take(k as int),
                    ).push(message(flows@[k as int].flow_id, Event::Unavailable)));
                }
                k = k + 1;
            }
            proof {
                assert(flows@.take(flows@.len() as int) == flows@);
                let q = expired@.take(i as int + 1);
                assert(q.drop_last() == expired@.take(i as int));
                assert(q.last() == expired@[i as int]);
            }
            i = i + 1;
        }
        proof {
            assert(expired@.take(expired@.len() as int) == expired@);
        }
        out
    }
}

/// Data arriving on a channel keeps each flow's announcements alternating,
/// the reconnection `Reset` included, and leaves the latch at the last
/// announcement.
pub proof fn lemma_data_alternates(f: FlowState, already_alive: bool, energy: Seq<Binary32>)
    ensures
        alternates(f.latch, flow_on_data(f, already_alive, energy).1),
        last_announced(f.latch, flow_on_data(f, already_alive, energy).1) == flow_on_data(
            f,
            already_alive,
            energy,
        ).0.latch,
{
    if already_alive {
        lemma_process_alternates(f, energy);
    } else {
        let avail = seq![message(f.flow_id, Event::Available)];
        let (f1, reset) = f.spec_reset();
        let (f2, batch) = f1.spec_process(energy);
        let e = Seq::<TriggerMessage>::empty();
        assert(avail.drop_last() == e);
        assert(last_announced(f.latch, e) == f.latch);
        assert(alternates(f.latch, e));
        assert(last_announced(f.latch, avail) == f.latch);
        assert(alternates(f.latch, avail));
        if reset.len() == 1 {
            assert(reset.drop_last() == e);
            assert(last_announced(f.latch, reset) == f1.latch);
            assert(alternates(f.latch, reset));
        } else {
            assert(reset == e);
        }
        lemma_alternates_append(f.latch, avail, reset);
        lemma_process_alternates(f1, energy);
        lemma_alternates_append(f.latch, avail + reset, batch);
    }
}

/// After a channel has expired, a fresh batch makes each attached flow
/// announce exactly `Available` then `Reset`, in that order, before anything
/// the batch itself calls for; this holds whether the flow was triggered or
/// had announced nothing, but not for a flow whose last announcement was
/// already `Reset`, since announcements never repeat.
pub proof fn lemma_fresh_batch_after_expiry(
    l: InstrumentLoop,
    channel: Channel,
    es: Seq<Seq<Binary32>>,
)
    requires
        l.wf(),
        tracks(l.timeouts_by_channel.channel_states@, channel),
        l.timeouts_by_channel.channel_states@[slot(
            l.timeouts_by_channel.channel_states@,
            channel,
        )].alive == Liveness::Dead,
        es.len() == l.flows_of(channel).len(),
        forall|k: int|
            0 <= k < l.flows_of(channel).len() ==> (#[trigger] l.flows_of(channel)[k]).latch
                != TriggerLatch::Reset,
    ensures
        !l.timeouts_by_channel.spec_was_alive(channel),
        flows_on_data(l.flows_of(channel), false, es).1 == reconnect_msgs(l.flows_of(channel), es),
{
    let s = l.timeouts_by_channel.channel_states@;
    let i = slot(s, channel);
    assert(0 <= i < s.len() && s[i].channel == channel);
    lemma_reconnect(l.flows_of(channel), es);
}

proof fn lemma_reconnect(fs: Seq<FlowState>, es: Seq<Seq<Binary32>>)
    requires
        es.len() == fs.len(),
        forall|k: int| 0 <= k < fs.len() ==> (#[trigger] fs[k]).latch != TriggerLatch::Reset,
    ensures
        flows_on_data(fs, false, es).1 == reconnect_msgs(fs, es),
    decreases fs.len(),
{
    if fs.len() > 0 {
        let p = fs.drop_last();
        assert forall|k: int| 0 <= k < p.len() implies (#[trigger] p[k]).latch
            != TriggerLatch::Reset by {
            assert(p[k] == fs[k]);
        }
        lemma_reconnect(p, es.drop_last());
        let f = fs.last();
        assert(f == fs[fs.len() - 1]);
        let (f1, reset) = f.spec_reset();
        assert(reset == seq![message(f.flow_id, Event::Reset)]);
        assert(f1 == FlowState { latch: TriggerLatch::Reset, ..f });
        assert(seq![message(f.flow_id, Event::Available)] + reset =~= seq![
            message(f.flow_id, Event::Available),
            message(f.flow_id, Event::Reset),
        ]);
        let early = flows_on_data(p, false, es.drop_last()).1;
        let late = flow_on_data(f, false, es.last()).1;
        let batch = f1.spec_process(es.last()).1;
        assert(late == seq![message(f.flow_id, Event::Available)] + reset + batch);
        assert(early + late =~= reconnect_msgs(p, es.drop_last()) + seq![
            message(f.flow_id, Event::Available),
            message(f.flow_id, Event::Reset),
        ] + batch);
    }
}

} // verus!
