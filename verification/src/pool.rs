//! The fixed-capacity voice pool and its voice-stealing allocation
//! algorithm.
//!
//! A pool owns a fixed number of voices. A note-on claims a voice by
//! scanning forward from a round-robin cursor for the first idle slot; when
//! every slot is sounding, the slot at the cursor — with claims made in ring
//! order, the one claimed longest ago — is stolen. A pitch map (one entry
//! per MIDI pitch value) finds the owning slot of a later note-off, and each
//! slot remembers the pitch it was most recently claimed for, so a stale
//! note-off for a stolen slot is ignored.

use crate::midi::MidiEvent;
use crate::voice::VoiceState;
use vstd::arithmetic::div_mod::{
    lemma_fundamental_div_mod, lemma_mod_bound, lemma_mod_multiples_vanish, lemma_mod_self_0,
    lemma_small_mod,
};
use vstd::pervasive::VecAdditionalExecFns;
use vstd::prelude::*;

verus! {

/// The mathematical state of a voice pool: the voices, the round-robin
/// cursor, the pitch map, the per-slot most-recently-claimed pitch, the
/// index of the render function in effect, and the master gain (held as a
/// flag: the gain is 1 when set and 0 when cleared).
#[verifier::ext_equal]
pub ghost struct PoolModel {
    pub voices: Seq<VoiceState>,
    pub next: int,
    pub pitch_to_slot: Seq<Option<usize>>,
    pub recent: Seq<Option<u8>>,
    pub program: u8,
    pub gain_on: bool,
}

/// A pitch-map entry is absent or names a slot of the pool.
pub open spec fn slot_entry_ok(entry: Option<usize>, num_voices: int) -> bool {
    match entry {
        Some(i) => i < num_voices,
        None => true,
    }
}

/// A recent-pitch entry is absent or a MIDI pitch.
pub open spec fn recent_entry_ok(entry: Option<u8>) -> bool {
    match entry {
        Some(p) => p <= 127,
        None => true,
    }
}

impl PoolModel {
    /// The number of voice slots. Fixed at construction; no transition
    /// changes it.
    pub open spec fn num_voices(self) -> int {
        self.voices.len() as int
    }

    /// Well-formedness: at least one slot, the cursor inside the ring, one
    /// pitch-map entry per MIDI pitch, every map entry naming a real slot,
    /// every field of every voice inside its MIDI range.
    pub open spec fn wf(self) -> bool {
        &&& self.voices.len() >= 1
        &&& 0 <= self.next < self.num_voices()
        &&& self.pitch_to_slot.len() == 128
        &&& forall|p: int|
            0 <= p < 128 ==> slot_entry_ok(#[trigger] self.pitch_to_slot[p], self.num_voices())
        &&& self.recent.len() == self.voices.len()
        &&& forall|i: int| 0 <= i < self.recent.len() ==> recent_entry_ok(#[trigger] self.recent[i])
        &&& forall|i: int| 0 <= i < self.voices.len() ==> (#[trigger] self.voices[i]).wf()
        &&& self.program <= 127
    }

    /// A slot is idle when it is not bound to any pitch: it was never
    /// claimed, or its note was released, and it is not pending reuse.
    pub open spec fn slot_idle(self, i: int) -> bool {
        self.recent[i] is None
    }

    /// The slot `k` ring positions after the cursor.
    pub open spec fn ring_slot(self, k: int) -> int {
        (self.next + k) % self.num_voices()
    }

    /// The slot the allocation scan settles on after skipping the first `j`
    /// ring positions: the first idle slot at or after position `j` in
    /// cursor order, or the slot at the cursor when none is idle.
    pub open spec fn scan_from(self, j: int) -> int
        decreases self.num_voices() - j,
    {
        if j < 0 || j >= self.num_voices() {
            self.next
        } else if self.slot_idle(self.ring_slot(j)) {
            self.ring_slot(j)
        } else {
            self.scan_from(j + 1)
        }
    }

    /// The slot a note-on claims: the first idle slot in cursor order, or
    /// the slot at the cursor when every slot is sounding.
    pub open spec fn chosen_slot(self) -> int {
        self.scan_from(0)
    }

    /// The state after `on(pitch, velocity)`: the chosen slot sounds the new
    /// note (its bend is kept), the cursor moves one past the chosen slot,
    /// the pitch map binds `pitch` to that slot, the slot remembers `pitch`,
    /// and the master gain comes back up.
    pub open spec fn on_transition(self, pitch: u8, velocity: u8) -> PoolModel {
        let s = self.chosen_slot();
        PoolModel {
            voices: self.voices.update(
                s,
                VoiceState { pitch, velocity, gate_on: true, pitch_bend: self.voices[s].pitch_bend },
            ),
            next: (s + 1) % self.num_voices(),
            pitch_to_slot: self.pitch_to_slot.update(pitch as int, Some(s as usize)),
            recent: self.recent.update(s, Some(pitch)),
            program: self.program,
            gain_on: true,
        }
    }

    /// The state after `off(pitch)`: if the pitch map binds `pitch` to a
    /// slot, the binding is removed; if that slot was also most recently
    /// claimed for `pitch`, its gate drops and it becomes idle — otherwise
    /// (the slot was stolen since) the slot itself is left alone. An
    /// unknown pitch changes nothing.
    pub open spec fn off_transition(self, pitch: u8) -> PoolModel {
        match self.pitch_to_slot[pitch as int] {
            Some(i) => {
                let unmapped = PoolModel {
                    pitch_to_slot: self.pitch_to_slot.update(pitch as int, None),
                    ..self
                };
                if self.recent[i as int] == Some(pitch) {
                    PoolModel {
                        voices: unmapped.voices.update(
                            i as int,
                            VoiceState { gate_on: false, ..self.voices[i as int] },
                        ),
                        recent: unmapped.recent.update(i as int, None),
                        ..unmapped
                    }
                } else {
                    unmapped
                }
            },
            None => self,
        }
    }

    /// The state after `bend(amount)`: every slot, idle or sounding, takes
    /// the new bend value; nothing else changes.
    pub open spec fn bend_transition(self, amount: u16) -> PoolModel {
        PoolModel {
            voices: Seq::new(
                self.voices.len(),
                |i: int| VoiceState { pitch_bend: amount, ..self.voices[i] },
            ),
            ..self
        }
    }

    /// The state after `set_render_function(program)`: the pool hard-mutes
    /// (a swap while voices sound would produce discontinuities) and records
    /// the new render-function index. The next note-on restores the gain.
    pub open spec fn set_render_transition(self, program: u8) -> PoolModel {
        PoolModel { program, gain_on: false, ..self }
    }

    /// The state after `all_notes_off`: every slot is released — its gate
    /// drops and it becomes idle — but nothing is muted, so releases decay
    /// audibly. The pitch map is left as it is.
    pub open spec fn all_notes_off_transition(self) -> PoolModel {
        PoolModel {
            voices: Seq::new(
                self.voices.len(),
                |i: int| VoiceState { gate_on: false, ..self.voices[i] },
            ),
            recent: Seq::new(self.recent.len(), |i: int| None),
            ..self
        }
    }

    /// The state after `all_sound_off`: the master gain drops to 0 at once;
    /// gates and the pitch map are untouched.
    pub open spec fn all_sound_off_transition(self) -> PoolModel {
        PoolModel { gain_on: false, ..self }
    }

    /// The state after applying one decoded MIDI event. A reset request
    /// leaves the pool unchanged.
    pub open spec fn apply_transition(self, event: MidiEvent) -> PoolModel {
        match event {
            MidiEvent::NoteOn { pitch, velocity } => self.on_transition(pitch, velocity),
            MidiEvent::NoteOff { pitch, velocity } => self.off_transition(pitch),
            MidiEvent::PitchBend { bend } => self.bend_transition(bend),
            MidiEvent::ProgramChange { program } => self.set_render_transition(program),
            MidiEvent::AllNotesOff => self.all_notes_off_transition(),
            MidiEvent::AllSoundOff => self.all_sound_off_transition(),
            MidiEvent::SystemReset => self,
        }
    }

    /// The state of a freshly built pool of `n` voices: every voice silent
    /// and unbent, the cursor at slot 0, the pitch map empty, no recent
    /// pitches, render function 0, gain up.
    pub open spec fn initial(n: int) -> PoolModel {
        PoolModel {
            voices: Seq::new(n as nat, |i: int| VoiceState::initial()),
            next: 0,
            pitch_to_slot: Seq::new(128, |i: int| None),
            recent: Seq::new(n as nat, |i: int| None),
            program: 0,
            gain_on: true,
        }
    }
}

/// Shifting a ring index by less than a full lap always moves it.
proof fn lemma_mod_shift_ne(x: int, d: int, n: int)
    requires
        x >= 0,
        0 < d < n,
    ensures
        (x + d) % n != x % n,
{
    lemma_fundamental_div_mod(x, n);
    lemma_mod_bound(x, n);
    let q = x / n;
    let r = x % n;
    if r + d < n {
        lemma_mod_multiples_vanish(q, r + d, n);
        lemma_small_mod((r + d) as nat, n as nat);
    } else {
        assert(x + d == n * (q + 1) + (r + d - n)) by (nonlinear_arith)
            requires
                x == n * q + r,
        ;
        lemma_mod_multiples_vanish(q + 1, r + d - n, n);
        lemma_small_mod((r + d - n) as nat, n as nat);
    }
}

/// Stepping an index that is already inside the ring, written without `%`.
proof fn lemma_wrap_inc(idx: int, n: int)
    requires
        0 <= idx < n,
    ensures
        (idx + 1) % n == if idx + 1 == n { 0int } else { idx + 1 },
{
    if idx + 1 == n {
        lemma_mod_self_0(n);
    } else {
        lemma_small_mod((idx + 1) as nat, n as nat);
    }
}

/// Adding to an already reduced ring index distributes over the reduction.
proof fn lemma_mod_add_reduced(x: int, d: int, n: int)
    requires
        x >= 0,
        d >= 0,
        n > 0,
    ensures
        (x % n + d) % n == (x + d) % n,
{
    lemma_fundamental_div_mod(x, n);
    lemma_mod_bound(x, n);
    lemma_mod_multiples_vanish(x / n, x % n + d, n);
}

impl PoolModel {
    /// The allocation scan lands inside the ring.
    pub proof fn lemma_chosen_slot_in_range(self)
        requires
            self.wf(),
        ensures
            0 <= self.chosen_slot() < self.num_voices(),
    {
        self.lemma_scan_in_range(0);
    }

    proof fn lemma_scan_in_range(self, j: int)
        requires
            self.wf(),
        ensures
            0 <= self.scan_from(j) < self.num_voices(),
        decreases self.num_voices() - j,
    {
        let n = self.num_voices();
        if j < 0 || j >= n {
        } else {
            lemma_mod_bound(self.next + j, n);
            if !self.slot_idle(self.ring_slot(j)) {
                self.lemma_scan_in_range(j + 1);
            }
        }
    }

    /// When no slot in the first `j` ring positions is idle, the scan's
    /// outcome is unchanged by skipping them.
    proof fn lemma_scan_skip_busy(self, j: int)
        requires
            self.wf(),
            0 <= j <= self.num_voices(),
            forall|k: int| 0 <= k < j ==> !self.slot_idle(#[trigger] self.ring_slot(k)),
        ensures
            self.chosen_slot() == self.scan_from(j),
        decreases j,
    {
        if j > 0 {
            self.lemma_scan_skip_busy(j - 1);
        }
    }

    /// When the slot at the cursor is idle, it is the one chosen.
    pub proof fn lemma_chosen_slot_cursor_idle(self)
        requires
            self.wf(),
            self.slot_idle(self.next),
        ensures
            self.chosen_slot() == self.next,
    {
        lemma_small_mod(self.next as nat, self.num_voices() as nat);
    }

    /// When every slot is sounding, the scan falls through to the cursor.
    pub proof fn lemma_chosen_slot_all_busy(self)
        requires
            self.wf(),
            forall|i: int| 0 <= i < self.num_voices() ==> !self.slot_idle(i),
        ensures
            self.chosen_slot() == self.next,
    {
        let n = self.num_voices();
        assert forall|k: int| 0 <= k < n implies !self.slot_idle(#[trigger] self.ring_slot(k)) by {
            lemma_mod_bound(self.next + k, n);
        }
        self.lemma_scan_skip_busy(n);
    }

    /// A note-on preserves well-formedness and the pool size.
    pub proof fn lemma_on_preserves_wf(self, pitch: u8, velocity: u8)
        requires
            self.wf(),
            pitch <= 127,
            velocity <= 127,
        ensures
            self.on_transition(pitch, velocity).wf(),
            self.on_transition(pitch, velocity).num_voices() == self.num_voices(),
    {
        self.lemma_chosen_slot_in_range();
        lemma_mod_bound(self.chosen_slot() + 1, self.num_voices());
    }

    /// A note-off preserves well-formedness and the pool size.
    pub proof fn lemma_off_preserves_wf(self, pitch: u8)
        requires
            self.wf(),
            pitch <= 127,
        ensures
            self.off_transition(pitch).wf(),
            self.off_transition(pitch).num_voices() == self.num_voices(),
    {
    }

    /// Every transition preserves well-formedness and the pool size.
    pub proof fn lemma_apply_preserves_wf(self, event: MidiEvent)
        requires
            self.wf(),
            event.wf(),
        ensures
            self.apply_transition(event).wf(),
            self.apply_transition(event).num_voices() == self.num_voices(),
    {
        match event {
            MidiEvent::NoteOn { pitch, velocity } => self.lemma_on_preserves_wf(pitch, velocity),
            MidiEvent::NoteOff { pitch, velocity } => self.lemma_off_preserves_wf(pitch),
            _ => {},
        }
    }
}

/// A fixed-capacity pool of voices with a steal-oldest allocation policy.
///
/// The capacity is fixed at construction and never changes. [`PoolModel`] is
/// the pool's mathematical state; every method's contract is stated as a
/// transition on it.
pub struct VoicePool {
    pub voices: Vec<VoiceState>,
    pub next: usize,
    pub pitch_to_slot: Vec<Option<usize>>,
    pub recent_pitches: Vec<Option<u8>>,
    pub program: u8,
    pub master_gain_on: bool,
}

impl View for VoicePool {
    type V = PoolModel;

    open spec fn view(&self) -> PoolModel {
        PoolModel {
            voices: self.voices@,
            next: self.next as int,
            pitch_to_slot: self.pitch_to_slot@,
            recent: self.recent_pitches@,
            program: self.program,
            gain_on: self.master_gain_on,
        }
    }
}

impl VoicePool {
    /// Builds a pool of `num_voices` silent voices. One voice gives a
    /// monophonic pool where every new note steals the single slot.
    #[verifier::loop_isolation(false)]
    pub fn new(num_voices: usize) -> (r: VoicePool)
        requires
            num_voices >= 1,
        ensures
            r@ == PoolModel::initial(num_voices as int),
            r@.wf(),
    {
        let mut voices: Vec<VoiceState> = Vec::new();
        let mut i: usize = 0;
        while i < num_voices
            invariant
                i <= num_voices,
                voices@.len() == i,
                forall|k: int| 0 <= k < i ==> voices@[k] == VoiceState::initial(),
            decreases num_voices - i,
        {
            voices.push(VoiceState::new());
            i = i + 1;
        }
        let mut pitch_to_slot: Vec<Option<usize>> = Vec::new();
        let mut p: usize = 0;
        while p < 128
            invariant
                p <= 128,
                pitch_to_slot@.len() == p,
                forall|k: int| 0 <= k < p ==> pitch_to_slot@[k] is None,
            decreases 128 - p,
        {
            pitch_to_slot.push(None);
            p = p + 1;
        }
        let mut recent_pitches: Vec<Option<u8>> = Vec::new();
        let mut s: usize = 0;
        while s < num_voices
            invariant
                s <= num_voices,
                recent_pitches@.len() == s,
                forall|k: int| 0 <= k < s ==> recent_pitches@[k] is None,
            decreases num_voices - s,
        {
            recent_pitches.push(None);
            s = s + 1;
        }
        let pool = VoicePool {
            voices,
            next: 0,
            pitch_to_slot,
            recent_pitches,
            program: 0,
            master_gain_on: true,
        };
        proof {
            assert(pool@.voices =~= PoolModel::initial(num_voices as int).voices);
            assert(pool@.pitch_to_slot =~= PoolModel::initial(num_voices as int).pitch_to_slot);
            assert(pool@.recent =~= PoolModel::initial(num_voices as int).recent);
            assert(pool@ =~= PoolModel::initial(num_voices as int));
        }
        pool
    }

    /// The number of voice slots.
    pub fn num_voices(&self) -> (r: usize)
        ensures
            r == self@.num_voices(),
    {
        self.voices.len()
    }

    /// The control state of slot `i`.
    pub fn voice(&self, i: usize) -> (r: VoiceState)
        requires
            i < self@.num_voices(),
        ensures
            r == self@.voices[i as int],
    {
        self.voices[i]
    }

    /// The pitch slot `i` was most recently claimed for, if it is not idle.
    pub fn recent_pitch(&self, i: usize) -> (r: Option<u8>)
        requires
            self@.wf(),
            i < self@.num_voices(),
        ensures
            r == self@.recent[i as int],
    {
        self.recent_pitches[i]
    }

    /// The slot the pitch map currently binds `pitch` to.
    pub fn slot_for_pitch(&self, pitch: u8) -> (r: Option<usize>)
        requires
            pitch <= 127,
            self@.wf(),
        ensures
            r == self@.pitch_to_slot[pitch as int],
    {
        self.pitch_to_slot[pitch as usize]
    }

    /// The ring position the next allocation scan starts from.
    pub fn cursor(&self) -> (r: usize)
        ensures
            r == self@.next,
    {
        self.next
    }

    /// The index of the render function in effect.
    pub fn program(&self) -> (r: u8)
        ensures
            r == self@.program,
    {
        self.program
    }

    /// Whether the master gain is up (1) rather than hard-muted (0).
    pub fn master_gain_on(&self) -> (r: bool)
        ensures
            r == self@.gain_on,
    {
        self.master_gain_on
    }

    /// Scans forward from the cursor for the first idle slot — or settles on
    /// the cursor slot itself when every slot is sounding — and moves the
    /// cursor one past the claimed slot.
    #[verifier::loop_isolation(false)]
    fn find_next_slot(&mut self) -> (selected: usize)
        requires
            old(self)@.wf(),
        ensures
            selected as int == old(self)@.chosen_slot(),
            selected < old(self)@.num_voices(),
            final(self)@ == (PoolModel { next: (selected as int + 1) % old(self)@.num_voices(), ..old(self)@ }),
    {
        proof {
            old(self)@.lemma_chosen_slot_in_range();
        }
        let ghost m = old(self)@;
        let ghost n_int = m.num_voices();
        let n = self.voices.len();
        let mut j: usize = 0;
        let mut idx: usize = self.next;
        proof {
            lemma_small_mod(m.next as nat, n as nat);
        }
        while j < n
            invariant
                *self == *old(self),
                j <= n,
                idx < n,
                idx as int == m.ring_slot(j as int),
                forall|k: int| 0 <= k < j ==> !m.slot_idle(#[trigger] m.ring_slot(k)),
            decreases n - j,
        {
            if self.recent_pitches[idx].is_none() {
                proof {
                    m.lemma_scan_skip_busy(j as int);
                }
                let selected = idx;
                self.next = if idx + 1 == n { 0 } else { idx + 1 };
                proof {
                    lemma_wrap_inc(selected as int, n_int);
                    assert(self@ =~= (PoolModel { next: (selected as int + 1) % n_int, ..m }));
                }
                return selected;
            }
            proof {
                lemma_mod_add_reduced(m.next + j as int, 1, n_int);
                lemma_wrap_inc(idx as int, n_int);
            }
            j = j + 1;
            idx = if idx + 1 == n { 0 } else { idx + 1 };
        }
        proof {
            m.lemma_scan_skip_busy(n as int);
        }
        let selected = self.next;
        self.next = if selected + 1 == n { 0 } else { selected + 1 };
        proof {
            lemma_wrap_inc(selected as int, n_int);
            assert(self@ =~= (PoolModel { next: (selected as int + 1) % n_int, ..m }));
        }
        selected
    }

    /// Claims a slot and sounds a note: the first idle slot in cursor order
    /// takes the new pitch and velocity, or the slot at the cursor is stolen
    /// when none is idle. The master gain comes back up in case the pool was
    /// muted.
    pub fn on(&mut self, pitch: u8, velocity: u8)
        requires
            old(self)@.wf(),
            pitch <= 127,
            velocity <= 127,
        ensures
            final(self)@ == old(self)@.on_transition(pitch, velocity),
            final(self)@.wf(),
    {
        proof {
            old(self)@.lemma_chosen_slot_in_range();
            old(self)@.lemma_on_preserves_wf(pitch, velocity);
        }
        let selected = self.find_next_slot();
        self.master_gain_on = true;
        let mut v = self.voices[selected];
        v.on(pitch, velocity);
        self.voices.set(selected, v);
        self.pitch_to_slot.set(pitch as usize, Some(selected));
        self.recent_pitches.set(selected, Some(pitch));
        proof {
            assert(self@ =~= old(self)@.on_transition(pitch, velocity));
        }
    }

    /// Releases the slot bound to `pitch`, if any: its gate drops and it
    /// becomes idle, but only when the slot still belongs to `pitch` — a
    /// slot stolen for another pitch in the meantime is left sounding. The
    /// pitch-map binding is removed either way.
    pub fn off(&mut self, pitch: u8)
        requires
            old(self)@.wf(),
            pitch <= 127,
        ensures
            final(self)@ == old(self)@.off_transition(pitch),
            final(self)@.wf(),
    {
        proof {
            old(self)@.lemma_off_preserves_wf(pitch);
        }
        if let Some(i) = self.pitch_to_slot[pitch as usize] {
            let still_owner = match self.recent_pitches[i] {
                Some(p) => p == pitch,
                None => false,
            };
            if still_owner {
                self.recent_pitches.set(i, None);
                let mut v = self.voices[i];
                v.off();
                self.voices.set(i, v);
            }
            self.pitch_to_slot.set(pitch as usize, None);
        }
        proof {
            assert(self@ =~= old(self)@.off_transition(pitch));
        }
    }

    /// Applies a pitch-bend value to every slot uniformly, idle ones
    /// included, so a voice claimed later also sounds bent.
    #[verifier::loop_isolation(false)]
    pub fn bend(&mut self, amount: u16)
        requires
            old(self)@.wf(),
            amount <= 16383,
        ensures
            final(self)@ == old(self)@.bend_transition(amount),
            final(self)@.wf(),
    {
        let n = self.voices.len();
        let mut i: usize = 0;
        while i < n
            invariant
                i <= n,
                n == old(self)@.num_voices(),
                self@.voices.len() == n,
                forall|k: int|
                    0 <= k < i ==> self@.voices[k] == (VoiceState {
                        pitch_bend: amount,
                        ..old(self)@.voices[k]
                    }),
                forall|k: int| i <= k < n ==> self@.voices[k] == old(self)@.voices[k],
                self.next == old(self).next,
                self.pitch_to_slot == old(self).pitch_to_slot,
                self.recent_pitches == old(self).recent_pitches,
                self.program == old(self).program,
                self.master_gain_on == old(self).master_gain_on,
            decreases n - i,
        {
            let mut v = self.voices[i];
            v.bend(amount);
            self.voices.set(i, v);
            i = i + 1;
        }
        proof {
            assert(self@.voices =~= old(self)@.bend_transition(amount).voices);
            assert(self@ =~= old(self)@.bend_transition(amount));
        }
    }

    /// Swaps the render function pool-wide: the pool hard-mutes first, so
    /// the swap cannot produce a click, and records the new index. The new
    /// function applies to current and subsequent voices uniformly; the next
    /// note-on restores the gain.
    pub fn set_render_function(&mut self, program: u8)
        requires
            old(self)@.wf(),
            program <= 127,
        ensures
            final(self)@ == old(self)@.set_render_transition(program),
            final(self)@.wf(),
    {
        self.all_sound_off();
        self.program = program;
        proof {
            assert(self@ =~= old(self)@.set_render_transition(program));
        }
    }

    /// Gently releases every slot: each gate drops and each slot becomes
    /// idle, without silencing, so releases decay through their envelopes.
    #[verifier::loop_isolation(false)]
    pub fn all_notes_off(&mut self)
        requires
            old(self)@.wf(),
        ensures
            final(self)@ == old(self)@.all_notes_off_transition(),
            final(self)@.wf(),
    {
        let n = self.voices.len();
        let mut i: usize = 0;
        while i < n
            invariant
                i <= n,
                n == old(self)@.num_voices(),
                self@.voices.len() == n,
                self@.recent.len() == n,
                forall|k: int|
                    0 <= k < i ==> self@.voices[k] == (VoiceState {
                        gate_on: false,
                        ..old(self)@.voices[k]
                    }),
                forall|k: int| i <= k < n ==> self@.voices[k] == old(self)@.voices[k],
                forall|k: int| 0 <= k < i ==> self@.recent[k] is None,
                forall|k: int| i <= k < n ==> self@.recent[k] == old(self)@.recent[k],
                self.next == old(self).next,
                self.pitch_to_slot == old(self).pitch_to_slot,
                self.program == old(self).program,
                self.master_gain_on == old(self).master_gain_on,
            decreases n - i,
        {
            self.recent_pitches.set(i, None);
            let mut v = self.voices[i];
            v.off();
            self.voices.set(i, v);
            i = i + 1;
        }
        proof {
            assert(self@.voices =~= old(self)@.all_notes_off_transition().voices);
            assert(self@.recent =~= old(self)@.all_notes_off_transition().recent);
            assert(self@ =~= old(self)@.all_notes_off_transition());
        }
    }

    /// Hard-mutes the pool at once: the master gain drops to 0. Gates and
    /// the pitch map are untouched, so `on`/`off` bookkeeping goes on.
    pub fn all_sound_off(&mut self)
        requires
            old(self)@.wf(),
        ensures
            final(self)@ == old(self)@.all_sound_off_transition(),
            final(self)@.wf(),
    {
        self.master_gain_on = false;
        proof {
            assert(self@ =~= old(self)@.all_sound_off_transition());
        }
    }

    /// Applies one decoded MIDI event to the pool and reports whether the
    /// event swapped the render function — the caller must then rebuild its
    /// signal graph.
    pub fn apply(&mut self, event: &MidiEvent) -> (render_changed: bool)
        requires
            old(self)@.wf(),
            event.wf(),
        ensures
            final(self)@ == old(self)@.apply_transition(*event),
            final(self)@.wf(),
            render_changed == (event is ProgramChange),
    {
        match *event {
            MidiEvent::NoteOn { pitch, velocity } => {
                self.on(pitch, velocity);
                false
            },
            MidiEvent::NoteOff { pitch, velocity: _ } => {
                self.off(pitch);
                false
            },
            MidiEvent::PitchBend { bend } => {
                self.bend(bend);
                false
            },
            MidiEvent::ProgramChange { program } => {
                self.set_render_function(program);
                true
            },
            MidiEvent::AllNotesOff => {
                self.all_notes_off();
                false
            },
            MidiEvent::AllSoundOff => {
                self.all_sound_off();
                false
            },
            MidiEvent::SystemReset => false,
        }
    }
}

/// How many voices of a pool are sounding (gate up).
pub open spec fn active_count(voices: Seq<VoiceState>) -> int
    decreases voices.len(),
{
    if voices.len() == 0 {
        0
    } else {
        active_count(voices.drop_last()) + if voices.last().gate_on {
            1int
        } else {
            0int
        }
    }
}

proof fn lemma_active_count_bound(voices: Seq<VoiceState>)
    ensures
        0 <= active_count(voices) <= voices.len(),
    decreases voices.len(),
{
    if voices.len() > 0 {
        lemma_active_count_bound(voices.drop_last());
    }
}

/// Pitches and velocities of a batch of note-on events, all in MIDI range.
pub open spec fn notes_wf(notes: Seq<(u8, u8)>) -> bool {
    forall|j: int| 0 <= j < notes.len() ==> (#[trigger] notes[j]).0 <= 127 && notes[j].1 <= 127
}

/// The pool state after a batch of note-on events, applied in order.
pub open spec fn apply_note_ons(m: PoolModel, notes: Seq<(u8, u8)>) -> PoolModel
    decreases notes.len(),
{
    if notes.len() == 0 {
        m
    } else {
        apply_note_ons(
            m.on_transition(notes[0].0, notes[0].1),
            notes.subrange(1, notes.len() as int),
        )
    }
}

/// Whether slot `i` is among the first `count` ring positions after the
/// cursor of `m`.
pub open spec fn ring_hit(m: PoolModel, count: int, i: int) -> bool {
    exists|j: int| 0 <= j < count && i == #[trigger] m.ring_slot(j)
}

/// A batch of note-ons preserves well-formedness and the pool size.
pub proof fn lemma_apply_note_ons_preserves_wf(m: PoolModel, notes: Seq<(u8, u8)>)
    requires
        m.wf(),
        notes_wf(notes),
    ensures
        apply_note_ons(m, notes).wf(),
        apply_note_ons(m, notes).num_voices() == m.num_voices(),
    decreases notes.len(),
{
    if notes.len() > 0 {
        m.lemma_on_preserves_wf(notes[0].0, notes[0].1);
        let m1 = m.on_transition(notes[0].0, notes[0].1);
        let rest = notes.subrange(1, notes.len() as int);
        assert(notes_wf(rest)) by {
            assert(forall|j: int| 0 <= j < rest.len() ==> rest[j] == notes[j + 1]);
        }
        lemma_apply_note_ons_preserves_wf(m1, rest);
    }
}

/// Capacity invariant: a pool never has more sounding voices than it has
/// slots, whatever batch of note-on events arrives.
pub proof fn lemma_capacity_invariant(m: PoolModel, notes: Seq<(u8, u8)>)
    requires
        m.wf(),
        notes_wf(notes),
    ensures
        active_count(apply_note_ons(m, notes).voices) <= m.num_voices(),
{
    lemma_apply_note_ons_preserves_wf(m, notes);
    lemma_active_count_bound(apply_note_ons(m, notes).voices);
}

/// Stale-off guard: when the slot the pitch map still binds to `stale` has
/// since been claimed for another pitch, a note-off for `stale` removes only
/// the map binding; the slot's gate and recent pitch are untouched.
pub proof fn lemma_stale_off_guard(m: PoolModel, stale: u8, current: u8, i: usize)
    requires
        m.wf(),
        stale <= 127,
        current <= 127,
        stale != current,
        m.pitch_to_slot[stale as int] == Some(i),
        m.recent[i as int] == Some(current),
    ensures
        m.off_transition(stale).voices == m.voices,
        m.off_transition(stale).recent == m.recent,
        m.off_transition(stale).pitch_to_slot == m.pitch_to_slot.update(stale as int, None),
{
}

proof fn lemma_fairness_from_idle_run(m: PoolModel, notes: Seq<(u8, u8)>)
    requires
        m.wf(),
        notes_wf(notes),
        notes.len() <= m.voices.len(),
        forall|j: int| 0 <= j < notes.len() ==> m.slot_idle(#[trigger] m.ring_slot(j)),
    ensures
        ({
            let f = apply_note_ons(m, notes);
            let n = m.num_voices();
            &&& f.wf()
            &&& f.num_voices() == n
            &&& f.next == (m.next + notes.len()) % n
            &&& f.program == m.program
            &&& f.gain_on == if notes.len() == 0 { m.gain_on } else { true }
            &&& forall|j: int|
                0 <= j < notes.len() ==> f.recent[#[trigger] m.ring_slot(j)] == Some(notes[j].0)
            &&& forall|j: int|
                0 <= j < notes.len() ==> f.voices[#[trigger] m.ring_slot(j)] == (VoiceState {
                    pitch: notes[j].0,
                    velocity: notes[j].1,
                    gate_on: true,
                    pitch_bend: m.voices[m.ring_slot(j)].pitch_bend,
                })
            &&& forall|i: int|
                0 <= i < n && !ring_hit(m, notes.len() as int, i) ==> f.recent[i] == m.recent[i]
                    && f.voices[i] == m.voices[i]
        }),
    decreases notes.len(),
{
    let f = apply_note_ons(m, notes);
    let n = m.num_voices();
    let len = notes.len() as int;
    if notes.len() == 0 {
        lemma_small_mod(m.next as nat, n as nat);
    } else {
        let p0 = notes[0].0;
        let v0 = notes[0].1;
        lemma_small_mod(m.next as nat, n as nat);
        assert(m.ring_slot(0) == m.next);
        m.lemma_chosen_slot_cursor_idle();
        m.lemma_on_preserves_wf(p0, v0);
        let m1 = m.on_transition(p0, v0);
        let rest = notes.subrange(1, len);
        assert(forall|j: int| 0 <= j < rest.len() ==> rest[j] == notes[j + 1]);
        assert(notes_wf(rest));
        assert(m1.num_voices() == n);
        assert(m1.next == (m.next + 1) % n);
        // Each ring position of the advanced cursor is the next ring
        // position of the original cursor, and it is still idle.
        assert forall|j: int| 0 <= j < rest.len() implies m1.slot_idle(
            #[trigger] m1.ring_slot(j),
        ) && m1.ring_slot(j) == m.ring_slot(j + 1) by {
            lemma_mod_add_reduced(m.next + 1, j, n);
            assert(m1.ring_slot(j) == m.ring_slot(j + 1));
            lemma_mod_shift_ne(m.next, j + 1, n);
            assert(m.ring_slot(j + 1) != m.next);
            lemma_mod_bound(m.next + j + 1, n);
            assert(m.slot_idle(m.ring_slot(j + 1)));
            assert(m1.recent[m.ring_slot(j + 1)] == m.recent[m.ring_slot(j + 1)]);
        }
        lemma_fairness_from_idle_run(m1, rest);
        assert(f == apply_note_ons(m1, rest));
        lemma_mod_add_reduced(m.next + 1, rest.len() as int, n);
        // The cursor slot is claimed by the first note and no later note of
        // the batch lands on it again.
        assert(!ring_hit(m1, rest.len() as int, m.next)) by {
            assert forall|j: int| 0 <= j < rest.len() implies m1.ring_slot(j) != m.next by {
                lemma_mod_add_reduced(m.next + 1, j, n);
                lemma_mod_shift_ne(m.next, j + 1, n);
            }
        }
        assert(f.recent[m.ring_slot(0)] == Some(p0));
        assert(f.voices[m.ring_slot(0)] == (VoiceState {
            pitch: p0,
            velocity: v0,
            gate_on: true,
            pitch_bend: m.voices[m.ring_slot(0)].pitch_bend,
        }));
        assert forall|j: int| 1 <= j < len implies f.recent[#[trigger] m.ring_slot(j)] == Some(
            notes[j].0,
        ) && f.voices[m.ring_slot(j)] == (VoiceState {
            pitch: notes[j].0,
            velocity: notes[j].1,
            gate_on: true,
            pitch_bend: m.voices[m.ring_slot(j)].pitch_bend,
        }) by {
            lemma_mod_add_reduced(m.next + 1, j - 1, n);
            lemma_mod_shift_ne(m.next, j, n);
            lemma_mod_bound(m.next + j, n);
            assert(m1.ring_slot(j - 1) == m.ring_slot(j));
            assert(m1.voices[m.ring_slot(j)] == m.voices[m.ring_slot(j)]);
        }
        assert forall|i: int|
            0 <= i < n && !ring_hit(m, len, i) implies f.recent[i] == m.recent[i] && f.voices[i]
            == m.voices[i] by {
            assert(m.ring_slot(0) == m.next);
            assert(i != m.next);
            assert(!ring_hit(m1, rest.len() as int, i)) by {
                assert forall|j: int| 0 <= j < rest.len() implies m1.ring_slot(j) != i by {
                    lemma_mod_add_reduced(m.next + 1, j, n);
                    assert(m1.ring_slot(j) == m.ring_slot(j + 1));
                    assert(!ring_hit(m, len, i));
                }
            }
        }
    }
}

/// Round-robin fairness under no contention: starting from a pool with
/// every slot idle, a batch of at most N note-on events lands in
/// consecutive, pairwise distinct slots after the cursor — each claimed
/// exactly once, every other slot untouched.
pub proof fn lemma_round_robin_fairness(m: PoolModel, notes: Seq<(u8, u8)>)
    requires
        m.wf(),
        notes_wf(notes),
        notes.len() <= m.voices.len(),
        forall|i: int| 0 <= i < m.num_voices() ==> m.slot_idle(i),
    ensures
        ({
            let f = apply_note_ons(m, notes);
            let n = m.num_voices();
            &&& f.wf()
            &&& f.num_voices() == n
            &&& f.next == (m.next + notes.len()) % n
            &&& forall|j: int| 0 <= j < notes.len() ==> 0 <= #[trigger] m.ring_slot(j) < n
            &&& forall|j1: int, j2: int|
                0 <= j1 < j2 < notes.len() ==> m.ring_slot(j1) != m.ring_slot(j2)
            &&& forall|j: int|
                0 <= j < notes.len() ==> f.recent[#[trigger] m.ring_slot(j)] == Some(notes[j].0)
            &&& forall|j: int|
                0 <= j < notes.len() ==> f.voices[#[trigger] m.ring_slot(j)] == (VoiceState {
                    pitch: notes[j].0,
                    velocity: notes[j].1,
                    gate_on: true,
                    pitch_bend: m.voices[m.ring_slot(j)].pitch_bend,
                })
            &&& forall|i: int|
                0 <= i < n && !ring_hit(m, notes.len() as int, i) ==> f.recent[i] == m.recent[i]
                    && f.voices[i] == m.voices[i]
        }),
{
    let n = m.num_voices();
    assert forall|j: int| 0 <= j < notes.len() implies m.slot_idle(#[trigger] m.ring_slot(j)) by {
        lemma_mod_bound(m.next + j, n);
    }
    lemma_fairness_from_idle_run(m, notes);
    assert forall|j: int| 0 <= j < notes.len() implies 0 <= #[trigger] m.ring_slot(j) < n by {
        lemma_mod_bound(m.next + j, n);
    }
    assert forall|j1: int, j2: int|
        0 <= j1 < j2 < notes.len() implies m.ring_slot(j1) != m.ring_slot(j2) by {
        lemma_mod_shift_ne(m.next + j1, j2 - j1, n);
        lemma_mod_add_reduced(m.next + j1, j2 - j1, n);
    }
}

/// Steal-oldest order: when every slot is sounding, a further note-on
/// steals the slot at the cursor — with claims made in ring order, the one
/// claimed longest ago — rather than an arbitrary one.
pub proof fn lemma_steal_oldest(m: PoolModel, pitch: u8, velocity: u8)
    requires
        m.wf(),
        pitch <= 127,
        velocity <= 127,
        forall|i: int| 0 <= i < m.num_voices() ==> !m.slot_idle(i),
    ensures
        m.chosen_slot() == m.next,
        m.on_transition(pitch, velocity).voices[m.next] == (VoiceState {
            pitch,
            velocity,
            gate_on: true,
            pitch_bend: m.voices[m.next].pitch_bend,
        }),
        m.on_transition(pitch, velocity).recent[m.next] == Some(pitch),
        m.on_transition(pitch, velocity).next == (m.next + 1) % m.num_voices(),
{
    m.lemma_chosen_slot_all_busy();
}

/// After an all-idle pool is filled by exactly N note-on events, the next
/// note-on steals the slot the first of them claimed: replacement follows
/// claim order, first in, first out.
pub proof fn lemma_steal_oldest_after_fill(
    m: PoolModel,
    notes: Seq<(u8, u8)>,
    pitch: u8,
    velocity: u8,
)
    requires
        m.wf(),
        notes_wf(notes),
        notes.len() == m.voices.len(),
        forall|i: int| 0 <= i < m.num_voices() ==> m.slot_idle(i),
        pitch <= 127,
        velocity <= 127,
    ensures
        ({
            let f = apply_note_ons(m, notes);
            &&& f.chosen_slot() == m.ring_slot(0)
            &&& f.recent[m.ring_slot(0)] == Some(notes[0].0)
            &&& f.on_transition(pitch, velocity).recent[m.ring_slot(0)] == Some(pitch)
            &&& f.on_transition(pitch, velocity).voices[m.ring_slot(0)] == (VoiceState {
                pitch,
                velocity,
                gate_on: true,
                pitch_bend: f.voices[m.ring_slot(0)].pitch_bend,
            })
        }),
{
    let f = apply_note_ons(m, notes);
    let n = m.num_voices();
    lemma_round_robin_fairness(m, notes);
    lemma_small_mod(m.next as nat, n as nat);
    assert(m.ring_slot(0) == m.next);
    // Every slot was claimed by the fill, so none is idle afterwards.
    assert forall|i: int| 0 <= i < n implies !f.slot_idle(i) by {
        let j = if i >= m.next {
            i - m.next
        } else {
            i + n - m.next
        };
        if i >= m.next {
            lemma_small_mod(i as nat, n as nat);
        } else {
            lemma_mod_multiples_vanish(1, i, n);
            lemma_small_mod(i as nat, n as nat);
        }
        assert(i == m.ring_slot(j));
        assert(f.recent[m.ring_slot(j)] == Some(notes[j].0));
    }
    // The fill brings the cursor a full lap around, back to its start.
    assert(f.next == m.next) by {
        lemma_mod_multiples_vanish(1, m.next, n);
        lemma_small_mod(m.next as nat, n as nat);
    }
    f.lemma_chosen_slot_all_busy();
}

/// Bend uniformity: one bend call sets the same bend value in every slot of
/// the pool, idle slots included, and changes nothing else of any slot.
pub proof fn lemma_bend_uniform(m: PoolModel, amount: u16)
    requires
        m.wf(),
        amount <= 16383,
    ensures
        forall|i: int|
            0 <= i < m.num_voices() ==> (#[trigger] m.bend_transition(amount).voices[i])
                == (VoiceState { pitch_bend: amount, ..m.voices[i] }),
        m.bend_transition(amount).next == m.next,
        m.bend_transition(amount).pitch_to_slot == m.pitch_to_slot,
        m.bend_transition(amount).recent == m.recent,
        m.bend_transition(amount).program == m.program,
        m.bend_transition(amount).gain_on == m.gain_on,
{
}

/// Program-change mute: a render-function swap drops the master gain to 0,
/// and the gain stays down until a note-on raises it back to 1.
pub proof fn lemma_program_change_mute(m: PoolModel, program: u8, pitch: u8, velocity: u8)
    requires
        m.wf(),
        program <= 127,
        pitch <= 127,
        velocity <= 127,
    ensures
        !m.set_render_transition(program).gain_on,
        m.set_render_transition(program).program == program,
        m.set_render_transition(program).on_transition(pitch, velocity).gain_on,
{
}

} // verus!
