//! The callsign: the generated literal text together with the audio clip
//! sequence that was fixed for it at generation time, and the
//! case-insensitive check of a typed answer against the text.

use vstd::prelude::*;
use crate::is_digit;
use crate::is_symbol;
use crate::is_upper_letter;
use crate::phonetics::PhoneticTable;

verus! {

/// ASCII uppercasing of one byte: lowercase letters are shifted up, every
/// other byte stays as it is.
pub open spec fn upper_byte(c: u8) -> u8 {
    if 97 <= c <= 122 {
        (c - 32) as u8
    } else {
        c
    }
}

/// ASCII uppercasing of a whole byte sequence.
pub open spec fn upper_seq(s: Seq<u8>) -> Seq<u8> {
    s.map_values(|c: u8| upper_byte(c))
}

/// The callsign shape, split at the digit: positions `0..p` are the prefix
/// (one or two uppercase letters), position `p` is the single digit, and the
/// rest is the suffix (one to four uppercase letters).
pub open spec fn split_matches(s: Seq<u8>, p: int) -> bool {
    &&& 1 <= p <= 2
    &&& p + 2 <= s.len() <= p + 5
    &&& forall|i: int| 0 <= i < p ==> is_upper_letter(#[trigger] s[i])
    &&& is_digit(s[p])
    &&& forall|i: int| p < i < s.len() ==> is_upper_letter(#[trigger] s[i])
}

/// The callsign grammar: one or two uppercase letters, one digit, then one
/// to four uppercase letters.
pub open spec fn matches_grammar(s: Seq<u8>) -> bool {
    exists|p: int| split_matches(s, p)
}

/// Per-field distinctness for the split at `p`: no letter repeats inside the
/// prefix and none repeats inside the suffix. A prefix letter may still
/// reappear in the suffix.
pub open spec fn fields_distinct(s: Seq<u8>, p: int) -> bool {
    &&& s.subrange(0, p).no_duplicates()
    &&& s.subrange(p + 1, s.len() as int).no_duplicates()
}

/// One trial: the literal text and the clip ids resolved for it, one per
/// text byte, in text order. The clip sequence is fixed when the callsign is
/// built and is reused verbatim on every playback.
pub struct Callsign {
    pub text: Vec<u8>,
    pub audio: Vec<u32>,
}

impl Callsign {
    /// The text obeys the grammar with distinct letters inside each field.
    pub open spec fn text_wf(self) -> bool {
        exists|p: int| split_matches(self.text@, p) && fields_distinct(self.text@, p)
    }

    /// The audio sequence renders the text against the given table: one clip
    /// per byte, each drawn from that byte's table row.
    pub open spec fn audio_matches(self, table: PhoneticTable) -> bool {
        &&& self.audio@.len() == self.text@.len()
        &&& forall|i: int|
            0 <= i < self.text@.len() ==> table.clips_of(self.text@[i]).contains(
                #[trigger] self.audio@[i],
            )
    }

    /// A well-formed trial for a given table.
    pub open spec fn wf(self, table: PhoneticTable) -> bool {
        &&& self.text_wf()
        &&& self.audio_matches(table)
    }

    /// Check a typed answer: uppercase the input and compare it with the
    /// stored text for exact equality. The stored text is canonically
    /// uppercase, so the comparison is case-insensitive on the input side
    /// only.
    pub fn check(&self, input: &Vec<u8>) -> (r: bool)
        ensures
            r <==> upper_seq(input@) == self.text@,
    {
        if input.len() != self.text.len() {
            assert(upper_seq(input@).len() == input@.len());
            return false;
        }
        let n = input.len();
        let mut i: usize = 0;
        while i < n
            invariant
                n == input@.len(),
                n == self.text@.len(),
                i <= n,
                forall|k: int| 0 <= k < i ==> upper_byte(#[trigger] input@[k]) == self.text@[k],
            decreases n - i,
        {
            let c = input[i];
            let u: u8 = if 97 <= c && c <= 122 {
                c - 32
            } else {
                c
            };
            if u != self.text[i] {
                assert(upper_seq(input@)[i as int] != self.text@[i as int]);
                return false;
            }
            i = i + 1;
        }
        assert(upper_seq(input@) =~= self.text@);
        true
    }
}

/// Every byte of a text that matches the grammar is a phonetic symbol, so
/// the table can render it: the generator's symbol universe is contained in
/// the table's key set.
pub proof fn lemma_grammar_symbols(s: Seq<u8>)
    requires
        matches_grammar(s),
    ensures
        forall|i: int| 0 <= i < s.len() ==> is_symbol(#[trigger] s[i]),
{
    let p = choose|p: int| split_matches(s, p);
    assert forall|i: int| 0 <= i < s.len() implies is_symbol(#[trigger] s[i]) by {
        if i < p {
            assert(is_upper_letter(s[i]));
        } else if i == p {
            assert(is_digit(s[i]));
        } else {
            assert(is_upper_letter(s[i]));
        }
    }
}

} // verus!
