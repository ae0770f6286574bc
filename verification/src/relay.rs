//! Feeding routed messages into the concurrent queue that links the
//! producer threads (MIDI input, an optional chooser) to the render loop.
//!
//! The queue is unbounded, non-blocking and multi-producer: producers never
//! wait, and the consumer polls. Because any thread holding the queue may
//! push at any time, nothing useful can be promised about its contents; the
//! verified logic therefore validates every message it pops (see
//! [`crate::msg::SynthMsg::is_valid`]) and is proved correct for every
//! well-formed message, whatever order they arrive in.

use crate::midi::MidiEvent;
use crate::msg::{Speaker, SynthMsg};
use crossbeam_queue::SegQueue;
use vstd::prelude::*;

verus! {

/// Concurrent unbounded queue of the outside crate `crossbeam_queue`,
/// declared so that verified code can hand messages to it.
#[verifier::external_type_specification]
#[verifier::external_body]
#[verifier::reject_recursive_types(T)]
pub struct ExSegQueue<T>(SegQueue<T>);

/// Relies on `crossbeam_queue::SegQueue::push`: appends the message at the
/// queue's tail. Producers on other threads interleave freely, so nothing
/// is claimed about the queue's contents afterwards.
#[verifier::external_body]
fn queue_push(queue: &SegQueue<SynthMsg>, msg: SynthMsg) {
    queue.push(msg);
}

/// The warm-up batch for pools of `num_voices` voices: one silent note-on /
/// note-off pair per voice at pitch 0, addressed to both speakers.
pub open spec fn warm_up_seq(num_voices: int) -> Seq<SynthMsg> {
    Seq::new(
        (2 * num_voices) as nat,
        |k: int|
            if k % 2 == 0 {
                SynthMsg { msg: MidiEvent::NoteOn { pitch: 0, velocity: 0 }, speaker: Speaker::Both }
            } else {
                SynthMsg {
                    msg: MidiEvent::NoteOff { pitch: 0, velocity: 0 },
                    speaker: Speaker::Both,
                }
            },
    )
}

/// Builds the warm-up batch: `num_voices` silent note-on/note-off pairs.
/// Draining these exercises every voice slot once, so any first-use
/// initialization in a render function happens before live playback.
#[verifier::loop_isolation(false)]
pub fn warm_up_messages(num_voices: usize) -> (r: Vec<SynthMsg>)
    requires
        2 * num_voices <= usize::MAX,
    ensures
        r@ == warm_up_seq(num_voices as int),
{
    let mut msgs: Vec<SynthMsg> = Vec::new();
    let mut i: usize = 0;
    while i < num_voices
        invariant
            i <= num_voices,
            msgs@.len() == 2 * i,
            forall|k: int| 0 <= k < 2 * i ==> msgs@[k] == warm_up_seq(num_voices as int)[k],
        decreases num_voices - i,
    {
        msgs.push(
            SynthMsg { msg: MidiEvent::NoteOn { pitch: 0, velocity: 0 }, speaker: Speaker::Both },
        );
        msgs.push(
            SynthMsg { msg: MidiEvent::NoteOff { pitch: 0, velocity: 0 }, speaker: Speaker::Both },
        );
        i = i + 1;
    }
    proof {
        assert(msgs@ =~= warm_up_seq(num_voices as int));
    }
    msgs
}

/// Pushes the warm-up batch of [`warm_up_messages`] into the queue the
/// render loop drains, before the first stream starts. Other producers
/// sharing the queue may interleave their own messages.
pub fn warm_up(queue: &SegQueue<SynthMsg>, num_voices: usize)
    requires
        2 * num_voices <= usize::MAX,
{
    let msgs = warm_up_messages(num_voices);
    let mut i: usize = 0;
    while i < msgs.len()
        decreases msgs.len() - i,
    {
        queue_push(queue, msgs[i]);
        i = i + 1;
    }
}

} // verus!
