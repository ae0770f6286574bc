//! The stereo routing layer: two independently addressable voice pools,
//! one per output channel.

use crate::midi::MidiEvent;
use crate::msg::{Speaker, SynthMsg};
use crate::pool::{PoolModel, VoicePool};
use vstd::prelude::*;

verus! {

/// Owns exactly two voice pools, addressed by [`Speaker::Left`] and
/// [`Speaker::Right`]. A `Both`-tagged message reaches the two pools in
/// left-then-right order; their states are independent, so no ordering
/// between them is observable. The two channels' output signals are placed
/// on independent stereo channels by the integrator, not summed.
pub struct StereoRouter {
    pub left: VoicePool,
    pub right: VoicePool,
}

impl StereoRouter {
    /// Both pools well formed, with the same capacity.
    pub open spec fn wf(self) -> bool {
        &&& self.left@.wf()
        &&& self.right@.wf()
        &&& self.left@.num_voices() == self.right@.num_voices()
    }

    /// Builds a router of two fresh pools of `num_voices` voices each. A
    /// mono setup simply hands both pools to the same render function and
    /// routes every message to both.
    pub fn new(num_voices: usize) -> (r: StereoRouter)
        requires
            num_voices >= 1,
        ensures
            r.left@ == PoolModel::initial(num_voices as int),
            r.right@ == PoolModel::initial(num_voices as int),
            r.wf(),
    {
        StereoRouter { left: VoicePool::new(num_voices), right: VoicePool::new(num_voices) }
    }

    /// Routes one tagged message: a `Left`- or `Right`-tagged event reaches
    /// that pool alone, a `Both`-tagged event reaches the two pools in
    /// left-then-right order, applying the identical transition to each.
    /// Returns whether the event swapped a render function, in which case
    /// the caller must rebuild its signal graph.
    pub fn route(&mut self, msg: &SynthMsg) -> (render_changed: bool)
        requires
            old(self).wf(),
            msg.wf(),
        ensures
            final(self).wf(),
            msg.speaker == Speaker::Left ==> final(self).left@ == old(self).left@.apply_transition(
                msg.msg,
            ) && final(self).right == old(self).right,
            msg.speaker == Speaker::Right ==> final(self).right@ == old(
                self,
            ).right@.apply_transition(msg.msg) && final(self).left == old(self).left,
            msg.speaker == Speaker::Both ==> final(self).left@ == old(self).left@.apply_transition(
                msg.msg,
            ) && final(self).right@ == old(self).right@.apply_transition(msg.msg),
            render_changed == (msg.msg is ProgramChange),
    {
        proof {
            old(self).left@.lemma_apply_preserves_wf(msg.msg);
            old(self).right@.lemma_apply_preserves_wf(msg.msg);
        }
        match msg.speaker {
            Speaker::Left => self.left.apply(&msg.msg),
            Speaker::Right => self.right.apply(&msg.msg),
            Speaker::Both => {
                let changed_left = self.left.apply(&msg.msg);
                let changed_right = self.right.apply(&msg.msg);
                changed_left || changed_right
            },
        }
    }
}

/// The pool state after a sequence of decoded events, applied in order.
pub open spec fn apply_events(m: PoolModel, events: Seq<MidiEvent>) -> PoolModel
    decreases events.len(),
{
    if events.len() == 0 {
        m
    } else {
        apply_events(m.apply_transition(events[0]), events.subrange(1, events.len() as int))
    }
}

/// Routing symmetry: two pools that start in the same state and receive the
/// same events end in the same state. A router whose pools are built alike
/// therefore keeps its two channels identical under `Both`-routed traffic.
pub proof fn lemma_routing_symmetry(left: PoolModel, right: PoolModel, events: Seq<MidiEvent>)
    requires
        left == right,
    ensures
        apply_events(left, events) == apply_events(right, events),
{
}

} // verus!
