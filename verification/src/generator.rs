//! The callsign generator: random draws come from the `rand` crate through
//! trusted wrappers; everything built on top of the draws — the alphabet,
//! the text assembly, the clip resolution — is verified.

use vstd::prelude::*;
use rand::RngExt;
use rand::seq::IndexedRandom;
use rand::seq::IteratorRandom;
use crate::is_symbol;
use crate::is_upper_letter;
use crate::callsign::Callsign;
use crate::callsign::fields_distinct;
use crate::callsign::split_matches;
use crate::phonetics::PhoneticTable;

verus! {

/// Relies on rand's `IteratorRandom::sample`: it samples `count` elements
/// from distinct positions of the iterator (a reservoir fed once from each
/// position), and returns exactly `count` of them when the iterator has at
/// least that many. Distinct positions of a duplicate-free pool give a
/// duplicate-free sample.
#[verifier::external_body]
pub(crate) fn sample_without_replacement(pool: &Vec<u8>, count: usize) -> (r: Vec<u8>)
    requires
        count <= pool@.len(),
    ensures
        r@.len() == count,
        forall|i: int| 0 <= i < r@.len() ==> pool@.contains(#[trigger] r@[i]),
        pool@.no_duplicates() ==> r@.no_duplicates(),
{
    let mut rd = rand::rng();
    pool.iter().copied().sample(&mut rd, count)
}

/// Relies on rand's `RngExt::random_range` over `lo..=hi`: it returns a value
/// of the range, and panics only on an empty range, which the precondition
/// rules out.
#[verifier::external_body]
pub(crate) fn random_in_range(lo: usize, hi: usize) -> (r: usize)
    requires
        lo <= hi,
    ensures
        lo <= r <= hi,
{
    let mut rd = rand::rng();
    rd.random_range(lo..=hi)
}

/// Relies on rand's `IndexedRandom::choose`: it returns `Some` of one element
/// of the slice whenever the slice is non-empty, which the precondition
/// guarantees.
#[verifier::external_body]
pub(crate) fn get_random_sound(sounds: &Vec<u32>) -> (r: u32)
    requires
        sounds@.len() >= 1,
    ensures
        sounds@.contains(r),
{
    let mut rd = rand::rng();
    *sounds.choose(&mut rd).unwrap()
}

/// The 26 uppercase ASCII letters, in order.
fn uppercase_alphabet() -> (r: Vec<u8>)
    ensures
        r@.len() == 26,
        forall|i: int| 0 <= i < 26 ==> #[trigger] r@[i] == 65 + i,
{
    let mut r: Vec<u8> = Vec::new();
    let mut c: u8 = 65;
    while c <= 90
        invariant
            65 <= c <= 91,
            r@.len() == c - 65,
            forall|i: int| 0 <= i < r@.len() ==> #[trigger] r@[i] == 65 + i,
        decreases 91 - c,
    {
        r.push(c);
        c = c + 1;
    }
    r
}

/// Draw `count` uppercase letters uniformly at random without replacement:
/// the result has exactly `count` letters and no letter repeats.
pub fn generate_x_chars(count: usize) -> (r: Vec<u8>)
    requires
        count <= 26,
    ensures
        r@.len() == count,
        forall|i: int| 0 <= i < r@.len() ==> is_upper_letter(#[trigger] r@[i]),
        r@.no_duplicates(),
{
    let alphabet = uppercase_alphabet();
    proof {
        assert(alphabet@.no_duplicates()) by {
            assert forall|i: int, j: int|
                0 <= i < alphabet@.len() && 0 <= j < alphabet@.len() && i != j implies alphabet@[i]
                != alphabet@[j] by {
                assert(alphabet@[i] == 65 + i);
                assert(alphabet@[j] == 65 + j);
            }
        }
    }
    let picked = sample_without_replacement(&alphabet, count);
    proof {
        assert forall|i: int| 0 <= i < picked@.len() implies is_upper_letter(
            #[trigger] picked@[i],
        ) by {
            let k = choose|k: int| 0 <= k < alphabet@.len() && alphabet@[k] == picked@[i];
            assert(alphabet@[k] == 65 + k);
        }
    }
    picked
}

/// Concatenate prefix, digit and suffix into the literal callsign text.
pub fn assemble_text(prefix: &Vec<u8>, digit: u8, suffix: &Vec<u8>) -> (r: Vec<u8>)
    ensures
        r@ == prefix@ + seq![digit] + suffix@,
{
    let mut r: Vec<u8> = Vec::new();
    let mut i: usize = 0;
    while i < prefix.len()
        invariant
            i <= prefix@.len(),
            r@ == prefix@.subrange(0, i as int),
        decreases prefix@.len() - i,
    {
        r.push(prefix[i]);
        i = i + 1;
    }
    assert(r@ =~= prefix@);
    r.push(digit);
    let mut j: usize = 0;
    while j < suffix.len()
        invariant
            j <= suffix@.len(),
            r@ == prefix@ + seq![digit] + suffix@.subrange(0, j as int),
        decreases suffix@.len() - j,
    {
        proof {
            assert((prefix@ + seq![digit] + suffix@.subrange(0, j as int)).push(suffix@[j as int])
                =~= prefix@ + seq![digit] + suffix@.subrange(0, j + 1));
        }
        r.push(suffix[j]);
        j = j + 1;
    }
    proof {
        assert(suffix@.subrange(0, suffix@.len() as int) =~= suffix@);
        assert(r@ =~= prefix@ + seq![digit] + suffix@);
    }
    r
}

/// Resolve one clip per text byte, in text order, each chosen uniformly at
/// random from that byte's table row.
pub fn resolve_audio(table: &PhoneticTable, text: &Vec<u8>) -> (r: Vec<u32>)
    requires
        table.wf(),
        forall|i: int| 0 <= i < text@.len() ==> is_symbol(#[trigger] text@[i]),
    ensures
        r@.len() == text@.len(),
        forall|i: int|
            0 <= i < text@.len() ==> table.clips_of(text@[i]).contains(#[trigger] r@[i]),
{
    let mut r: Vec<u32> = Vec::new();
    let mut i: usize = 0;
    while i < text.len()
        invariant
            table.wf(),
            forall|k: int| 0 <= k < text@.len() ==> is_symbol(#[trigger] text@[k]),
            i <= text@.len(),
            r@.len() == i,
            forall|k: int|
                0 <= k < i ==> table.clips_of(text@[k]).contains(#[trigger] r@[k]),
        decreases text@.len() - i,
    {
        let clips = table.clips_for(text[i]);
        let clip = get_random_sound(clips);
        r.push(clip);
        i = i + 1;
    }
    r
}

/// Generate a fresh callsign: one or two distinct prefix letters, one digit,
/// one to four distinct suffix letters, and one clip per byte fixed now and
/// reused on every later playback.
pub fn generate_callsign(table: &PhoneticTable) -> (c: Callsign)
    requires
        table.wf(),
    ensures
        c.wf(*table),
        crate::callsign::matches_grammar(c.text@),
{
    let prefix_len = random_in_range(1, 2);
    let prefix = generate_x_chars(prefix_len);

    let zone_num = random_in_range(0, 9);
    let digit: u8 = 48 + (zone_num as u8);

    let suffix_len = random_in_range(1, 4);
    let suffix = generate_x_chars(suffix_len);

    let text = assemble_text(&prefix, digit, &suffix);

    let ghost p = prefix@.len() as int;
    proof {
        assert(split_matches(text@, p)) by {
            assert(forall|i: int| 0 <= i < p ==> text@[i] == prefix@[i]);
            assert(text@[p] == digit);
            assert(forall|i: int| p < i < text@.len() ==> text@[i] == suffix@[i - p - 1]);
        }
        assert(fields_distinct(text@, p)) by {
            assert(text@.subrange(0, p) =~= prefix@);
            assert(text@.subrange(p + 1, text@.len() as int) =~= suffix@);
        }
        crate::callsign::lemma_grammar_symbols(text@);
    }

    let audio = resolve_audio(table, &text);
    let c = Callsign { text, audio };
    proof {
        assert(split_matches(c.text@, p) && fields_distinct(c.text@, p));
    }
    c
}

} // verus!
