use crate::oracle::ProcessProbe;
use vstd::prelude::*;

verus! {

/// Capacity of the channel carrying activity events to the supervisor. Two
/// slots cover the boundary where the synthetic startup event and a first
/// transition are both in flight, without loss.
pub const ACTIVITY_EVENT_CAPACITY: usize = 2;

/// Edge-triggered activity detector. `last` holds the last emitted activity
/// value (or the implicit initial value `false`, i.e. stopped, before the
/// first emission). In disabled mode the monitor never polls the oracle; it
/// emits one synthetic running event at startup and then stays silent.
pub struct ActivityMonitor {
    pub last: bool,
    pub disabled: bool,
    pub startup_done: bool,
}

/// The detector's internal value after it has processed `samples`, starting
/// from `last0`: each step records the sample it just saw.
pub open spec fn last_after(last0: bool, samples: Seq<bool>) -> bool
    decreases samples.len(),
{
    if samples.len() == 0 {
        last0
    } else if samples.last() != last_after(last0, samples.drop_last()) {
        samples.last()
    } else {
        last_after(last0, samples.drop_last())
    }
}

/// The events emitted while processing `samples` from internal value `last0`:
/// a sample is emitted exactly when it differs from the value the detector
/// held just before it.
pub open spec fn emissions(last0: bool, samples: Seq<bool>) -> Seq<bool>
    decreases samples.len(),
{
    if samples.len() == 0 {
        Seq::empty()
    } else if samples.last() != last_after(last0, samples.drop_last()) {
        emissions(last0, samples.drop_last()).push(samples.last())
    } else {
        emissions(last0, samples.drop_last())
    }
}

/// The last value emitted so far, or the initial value if nothing was
/// emitted yet.
pub open spec fn last_emitted(last0: bool, events: Seq<bool>) -> bool {
    if events.len() == 0 {
        last0
    } else {
        events.last()
    }
}

/// The detector's internal value always equals the last emitted value (the
/// initial value before any emission).
pub proof fn lemma_last_tracks_emitted(last0: bool, samples: Seq<bool>)
    ensures
        last_after(last0, samples) == last_emitted(last0, emissions(last0, samples)),
    decreases samples.len(),
{
    if samples.len() > 0 {
        lemma_last_tracks_emitted(last0, samples.drop_last());
    }
}

/// Law: for every sequence of oracle samples, an event is emitted at step `i`
/// exactly when the sample at `i` differs from the last previously *emitted*
/// value; repeated identical samples produce no events.
pub proof fn lemma_edge_triggered(last0: bool, samples: Seq<bool>, i: int)
    requires
        0 <= i < samples.len(),
    ensures
        emissions(last0, samples.take(i + 1)) == (if samples[i] != last_emitted(
            last0,
            emissions(last0, samples.take(i)),
        ) {
            emissions(last0, samples.take(i)).push(samples[i])
        } else {
            emissions(last0, samples.take(i))
        }),
{
    let pre = samples.take(i + 1);
    assert(pre.drop_last() =~= samples.take(i));
    assert(pre.last() == samples[i]);
    lemma_last_tracks_emitted(last0, samples.take(i));
}

/// Corollary: a run of samples that never departs from the initial value
/// produces no events at all.
pub proof fn lemma_constant_samples_silent(last0: bool, samples: Seq<bool>)
    requires
        forall|i: int| 0 <= i < samples.len() ==> samples[i] == last0,
    ensures
        emissions(last0, samples) == Seq::<bool>::empty(),
    decreases samples.len(),
{
    if samples.len() > 0 {
        lemma_constant_samples_silent(last0, samples.drop_last());
        lemma_last_tracks_emitted(last0, samples.drop_last());
    }
}

impl ActivityMonitor {
    pub fn new(disabled: bool) -> (m: Self)
        ensures
            m.last == false,
            m.disabled == disabled,
            m.startup_done == false,
    {
        ActivityMonitor { last: false, disabled, startup_done: false }
    }

    /// The startup step. With activity gating disabled it emits exactly one
    /// synthetic running event (the first call returns it, every later call
    /// returns nothing); with gating enabled it emits nothing.
    pub fn startup_event(&mut self) -> (e: Option<bool>)
        ensures
            final(self).last == old(self).last,
            final(self).disabled == old(self).disabled,
            final(self).startup_done == true,
            e == (if old(self).disabled && !old(self).startup_done {
                Some(true)
            } else {
                None::<bool>
            }),
    {
        let first = !self.startup_done;
        self.startup_done = true;
        if self.disabled && first {
            Some(true)
        } else {
            None
        }
    }

    /// One poll cycle on a fresh oracle sample: emit the sample exactly when
    /// it differs from the last emitted value, and record it. A disabled
    /// monitor never observes a sample.
    pub fn observe(&mut self, sample: bool) -> (e: Option<bool>)
        requires
            !old(self).disabled,
        ensures
            final(self).disabled == old(self).disabled,
            final(self).startup_done == old(self).startup_done,
            final(self).last == sample,
            e == (if sample != old(self).last {
                Some(sample)
            } else {
                None::<bool>
            }),
    {
        if sample != self.last {
            self.last = sample;
            Some(sample)
        } else {
            None
        }
    }

    /// One full poll cycle against the live oracle: sample whether the
    /// companion application runs, then emit on edge. A disabled monitor
    /// never polls the oracle. The oracle's answer depends on the machine,
    /// so the contract holds of either answer: an emitted event always
    /// differs from the last emitted value and becomes the new one, and a
    /// silent cycle leaves the detector unchanged.
    pub fn poll(&mut self, probe: &mut ProcessProbe) -> (e: Option<bool>)
        requires
            !old(self).disabled,
        ensures
            final(self).disabled == old(self).disabled,
            final(self).startup_done == old(self).startup_done,
            match e {
                Some(v) => v != old(self).last && final(self).last == v,
                None => final(self).last == old(self).last,
            },
    {
        let sample = probe.process_running("VRChat");
        self.observe(sample)
    }

    /// The poll loop's compute over a whole run of samples: the events that
    /// come out are exactly the edge-triggered `emissions`.
    pub fn observe_all(&mut self, samples: &Vec<bool>) -> (events: Vec<bool>)
        requires
            !old(self).disabled,
        ensures
            final(self).disabled == old(self).disabled,
            final(self).startup_done == old(self).startup_done,
            final(self).last == last_after(old(self).last, samples@),
            events@ == emissions(old(self).last, samples@),
    {
        let last0 = self.last;
        let ghost all = samples@;
        let mut events: Vec<bool> = Vec::new();
        let mut i: usize = 0;
        while i < samples.len()
            invariant
                i <= samples.len(),
                all == samples@,
                !self.disabled,
                self.disabled == old(self).disabled,
                self.startup_done == old(self).startup_done,
                last0 == old(self).last,
                self.last == last_after(last0, all.take(i as int)),
                events@ == emissions(last0, all.take(i as int)),
            decreases samples.len() - i,
        {
            let sample = samples[i];
            proof {
                assert(all.take(i + 1).drop_last() =~= all.take(i as int));
                assert(all.take(i + 1).last() == all[i as int]);
            }
            if let Some(e) = self.observe(sample) {
                events.push(e);
            }
            i = i + 1;
        }
        proof {
            assert(all.take(samples@.len() as int) =~= all);
        }
        events
    }
}

} // verus!
