//! The phonetic sound table: each of the 36 symbols (A-Z then 0-9) owns one
//! or more audio clips. Clips are identified here by plain indices into the
//! application's decoded-buffer store; the buffers themselves are opaque
//! audio data that the trainer's logic never inspects.

use vstd::prelude::*;
use crate::is_symbol;
use crate::is_upper_letter;

verus! {

/// The table row a symbol belongs to: letters come first (A is 0), then
/// digits (0 is 26).
pub open spec fn symbol_index(c: u8) -> int
    recommends
        is_symbol(c),
{
    if is_upper_letter(c) {
        c - 65
    } else {
        26 + (c - 48)
    }
}

/// The symbol a clip renders: clip `i` below 36 is the primary clip of
/// symbol `i`; clip 36 is the alternate clip of the letter I (symbol 8).
pub open spec fn clip_symbol(clip: u32) -> int {
    if clip < 36 {
        clip as int
    } else {
        8
    }
}

/// The phonetic sound table: row `i` holds the clip ids of symbol `i`.
pub struct PhoneticTable {
    pub entries: Vec<Vec<u32>>,
}

impl PhoneticTable {
    /// Well-formed: one non-empty row per symbol, and every clip in row `i`
    /// renders symbol `i` and names a real clip.
    pub open spec fn wf(self) -> bool {
        &&& self.entries@.len() == 36
        &&& forall|i: int| 0 <= i < 36 ==> #[trigger] self.entries@[i]@.len() >= 1
        &&& forall|i: int, j: int|
            0 <= i < 36 && 0 <= j < self.entries@[i]@.len() ==> clip_symbol(
                #[trigger] self.entries@[i]@[j],
            ) == i && self.entries@[i]@[j] < 37
    }

    /// The clips that render symbol `c`.
    pub open spec fn clips_of(self, c: u8) -> Seq<u32>
        recommends
            is_symbol(c),
    {
        self.entries@[symbol_index(c)]@
    }

    /// Look a symbol's clips up by exact match; the table's invariant
    /// guarantees the row exists and is non-empty.
    pub fn clips_for(&self, c: u8) -> (r: &Vec<u32>)
        requires
            self.wf(),
            is_symbol(c),
        ensures
            r@ == self.clips_of(c),
            r@.len() >= 1,
    {
        let idx: usize = if c >= 65 {
            (c - 65) as usize
        } else {
            26 + (c - 48) as usize
        };
        &self.entries[idx]
    }
}

/// Build the table: symbol `i` gets clip `i`, and the letter I (symbol 8)
/// additionally gets the alternate clip 36, showing the one-to-many
/// capability. Decoding the clip bytes themselves is the application's job;
/// the table fixes which clips belong to which symbol.
pub fn load_phonetics() -> (t: PhoneticTable)
    ensures
        t.wf(),
        forall|i: int|
            0 <= i < 36 ==> #[trigger] t.entries@[i]@.len() == if i == 8 {
                2int
            } else {
                1int
            },
        forall|i: int| 0 <= i < 36 ==> #[trigger] t.entries@[i]@[0] == i,
        t.entries@[8]@[1] == 36,
{
    let mut entries: Vec<Vec<u32>> = Vec::new();
    let mut i: u32 = 0;
    while i < 36
        invariant
            i <= 36,
            entries@.len() == i,
            forall|k: int|
                0 <= k < i ==> #[trigger] entries@[k]@.len() == if k == 8 {
                    2int
                } else {
                    1int
                },
            forall|k: int| 0 <= k < i ==> #[trigger] entries@[k]@[0] == k,
            i > 8 ==> entries@[8]@[1] == 36,
        decreases 36 - i,
    {
        let mut clips: Vec<u32> = Vec::new();
        clips.push(i);
        if i == 8 {
            clips.push(36);
        }
        entries.push(clips);
        i = i + 1;
    }
    PhoneticTable { entries }
}

} // verus!
