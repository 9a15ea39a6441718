//! The trainer session: the decisions behind the window's buttons. The
//! application performs the playback and reports whether the sink is busy;
//! every decision taken on that report — the busy guards, the answer check,
//! the auto-advance after a correct answer — is made and verified here.

use vstd::prelude::*;
use crate::is_symbol;
use crate::callsign::Callsign;
use crate::callsign::upper_seq;
use crate::generator::generate_callsign;
use crate::generator::get_random_sound;
use crate::phonetics::PhoneticTable;
use crate::phonetics::load_phonetics;

verus! {

/// What "generate new" did: a fresh callsign, or a refusal because the sink
/// still had audio queued.
#[derive(Clone, Copy, Debug, PartialEq, Eq)]
pub enum GenerateOutcome {
    Generated,
    RejectedBusy,
}

/// What "check input" did: a mismatch, a match followed by the auto-advance,
/// or a match whose auto-advance the busy sink refused.
#[derive(Clone, Copy, Debug, PartialEq, Eq)]
pub enum CheckOutcome {
    Wrong,
    CorrectAndGenerated,
    CorrectButBusy,
}

/// The trainer session: the sound table built at startup and the current
/// trial. Both are owned here and touched only through the action handlers.
pub struct Trainer {
    pub table: PhoneticTable,
    pub callsign: Callsign,
}

impl Trainer {
    /// The table is well-formed and the current callsign was generated
    /// against it.
    pub open spec fn wf(self) -> bool {
        &&& self.table.wf()
        &&& self.callsign.wf(self.table)
    }

    /// The clip sequence a playback of the current trial hands to the sink.
    pub open spec fn play_sequence(self) -> Seq<u32> {
        self.callsign.audio@
    }

    /// Start a session: build the sound table and generate the first trial.
    /// The table is the full phonetic inventory — clip `i` for symbol `i`,
    /// with the alternate clip 36 beside clip 8 for the letter I; the first
    /// trial is a random draw whose shape `wf` states.
    pub fn new() -> (t: Trainer)
        ensures
            t.wf(),
            t.table.entries@.len() == 36,
            forall|i: int|
                0 <= i < 36 ==> #[trigger] t.table.entries@[i]@.len() == if i == 8 {
                    2int
                } else {
                    1int
                },
            forall|i: int| 0 <= i < 36 ==> #[trigger] t.table.entries@[i]@[0] == i,
            t.table.entries@[8]@[1] == 36,
    {
        let table = load_phonetics();
        let callsign = generate_callsign(&table);
        Trainer { table, callsign }
    }

    /// The "new callsign" action. While the sink is busy the action is
    /// refused and the current callsign stays exactly as it was; otherwise
    /// the callsign is replaced wholesale by a fresh one.
    pub fn generate_new(&mut self, busy: bool) -> (r: GenerateOutcome)
        requires
            old(self).wf(),
        ensures
            final(self).wf(),
            final(self).table == old(self).table,
            busy ==> r == GenerateOutcome::RejectedBusy && final(self).callsign == old(
                self,
            ).callsign,
            !busy ==> r == GenerateOutcome::Generated,
    {
        if busy {
            return GenerateOutcome::RejectedBusy;
        }
        self.callsign = generate_callsign(&self.table);
        GenerateOutcome::Generated
    }

    /// The "check input" action. The uppercased input is compared with the
    /// stored text; on a match the session immediately tries to advance to a
    /// fresh callsign, which the busy guard of `generate_new` may still
    /// refuse. On a mismatch, or a refused advance, the callsign is
    /// unchanged.
    pub fn check_input(&mut self, input: &Vec<u8>, busy: bool) -> (r: CheckOutcome)
        requires
            old(self).wf(),
        ensures
            final(self).wf(),
            final(self).table == old(self).table,
            r == CheckOutcome::Wrong <==> upper_seq(input@) != old(self).callsign.text@,
            r == CheckOutcome::Wrong ==> final(self).callsign == old(self).callsign,
            r == CheckOutcome::CorrectButBusy <==> upper_seq(input@) == old(self).callsign.text@
                && busy,
            r == CheckOutcome::CorrectButBusy ==> final(self).callsign == old(self).callsign,
            r == CheckOutcome::CorrectAndGenerated <==> upper_seq(input@) == old(
                self,
            ).callsign.text@ && !busy,
    {
        if self.callsign.check(input) {
            match self.generate_new(busy) {
                GenerateOutcome::Generated => CheckOutcome::CorrectAndGenerated,
                GenerateOutcome::RejectedBusy => CheckOutcome::CorrectButBusy,
            }
        } else {
            CheckOutcome::Wrong
        }
    }

    /// The "play callsign" action. While the sink is busy nothing is
    /// enqueued; otherwise the trial's clip sequence is handed over exactly
    /// as it was fixed at generation time, for gapless sequential playback.
    pub fn plan_play(&self, busy: bool) -> (r: Option<Vec<u32>>)
        ensures
            busy ==> r is None,
            !busy ==> r is Some && r->0@ == self.play_sequence(),
    {
        if busy {
            return None;
        }
        let mut out: Vec<u32> = Vec::new();
        let n = self.callsign.audio.len();
        let mut i: usize = 0;
        while i < n
            invariant
                n == self.callsign.audio@.len(),
                i <= n,
                out@ == self.callsign.audio@.subrange(0, i as int),
            decreases n - i,
        {
            out.push(self.callsign.audio[i]);
            i = i + 1;
        }
        proof {
            assert(out@ =~= self.callsign.audio@);
        }
        Some(out)
    }

    /// The per-symbol debug action: resolve one clip for the symbol, chosen
    /// at random from its table row. Deliberately bypasses the busy guard —
    /// it feeds the immediate output path, not the queued sink — a quirk of
    /// the debug aid that is kept as it is.
    pub fn debug_symbol_clip(&self, c: u8) -> (r: u32)
        requires
            self.wf(),
            is_symbol(c),
        ensures
            self.table.clips_of(c).contains(r),
    {
        let clips = self.table.clips_for(c);
        get_random_sound(clips)
    }
}

/// Law: replaying a trial yields the identical clip sequence every time. Any
/// two playbacks of the same session state enqueue the same sequence — the
/// sequence is fixed by the callsign at generation time and playback never
/// re-randomizes it.
pub proof fn lemma_replay_identical(t: Trainer, s1: Seq<u32>, s2: Seq<u32>)
    requires
        s1 == t.play_sequence(),
        s2 == t.play_sequence(),
    ensures
        s1 == s2,
{
}

} // verus!
