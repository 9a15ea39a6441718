use callsign_trainer::generator::assemble_text;
use callsign_trainer::generator::generate_callsign;
use callsign_trainer::generator::generate_x_chars;
use callsign_trainer::generator::resolve_audio;
use callsign_trainer::phonetics::load_phonetics;

/// The table row a symbol byte belongs to: letters first, then digits.
fn symbol_row(c: u8) -> usize {
    if c.is_ascii_uppercase() {
        (c - b'A') as usize
    } else {
        assert!(c.is_ascii_digit());
        26 + (c - b'0') as usize
    }
}

/// The position of the single digit in a generated text.
fn digit_position(text: &[u8]) -> usize {
    text.iter().position(|c| c.is_ascii_digit()).expect("a callsign holds a digit")
}

#[test]
fn table_has_one_row_per_symbol() {
    let table = load_phonetics();
    assert_eq!(table.entries.len(), 36);
    for (i, row) in table.entries.iter().enumerate() {
        if i == 8 {
            assert_eq!(row, &vec![8u32, 36u32]);
        } else {
            assert_eq!(row, &vec![i as u32]);
        }
    }
}

#[test]
fn table_lookup_is_by_exact_symbol() {
    let table = load_phonetics();
    assert_eq!(table.clips_for(b'A'), &vec![0u32]);
    assert_eq!(table.clips_for(b'I'), &vec![8u32, 36u32]);
    assert_eq!(table.clips_for(b'Z'), &vec![25u32]);
    assert_eq!(table.clips_for(b'0'), &vec![26u32]);
    assert_eq!(table.clips_for(b'9'), &vec![35u32]);
}

#[test]
fn generated_text_matches_grammar() {
    let table = load_phonetics();
    for _ in 0..200 {
        let c = generate_callsign(&table);
        let text = &c.text;
        let p = digit_position(text);
        assert!(p == 1 || p == 2, "prefix has one or two letters: {:?}", text);
        assert!(text[..p].iter().all(|b| b.is_ascii_uppercase()));
        assert!(text[p].is_ascii_digit());
        let suffix = &text[p + 1..];
        assert!((1..=4).contains(&suffix.len()), "suffix has one to four letters: {:?}", text);
        assert!(suffix.iter().all(|b| b.is_ascii_uppercase()));
    }
}

#[test]
fn generated_fields_have_distinct_letters() {
    let table = load_phonetics();
    for _ in 0..200 {
        let c = generate_callsign(&table);
        let p = digit_position(&c.text);
        let prefix = &c.text[..p];
        let suffix = &c.text[p + 1..];
        for field in [prefix, suffix] {
            for i in 0..field.len() {
                for j in 0..i {
                    assert_ne!(field[i], field[j], "letters repeat in {:?}", c.text);
                }
            }
        }
    }
}

#[test]
fn generated_audio_has_one_clip_per_symbol_in_order() {
    let table = load_phonetics();
    for _ in 0..100 {
        let c = generate_callsign(&table);
        assert_eq!(c.audio.len(), c.text.len());
        for (b, clip) in c.text.iter().zip(c.audio.iter()) {
            let row = &table.entries[symbol_row(*b)];
            assert!(row.contains(clip), "clip {} does not render {}", clip, *b as char);
        }
    }
}

#[test]
fn assemble_text_example() {
    let text = assemble_text(&b"AB".to_vec(), b'7', &b"XYZ".to_vec());
    assert_eq!(text, b"AB7XYZ".to_vec());
}

#[test]
fn resolve_audio_example() {
    let table = load_phonetics();
    let audio = resolve_audio(&table, &b"AB7XYZ".to_vec());
    assert_eq!(audio, vec![0, 1, 33, 23, 24, 25]);
}

#[test]
fn resolve_audio_draws_alternate_clips() {
    let table = load_phonetics();
    for _ in 0..50 {
        let audio = resolve_audio(&table, &b"I".to_vec());
        assert_eq!(audio.len(), 1);
        assert!(audio[0] == 8 || audio[0] == 36);
    }
}

#[test]
fn generate_x_chars_draws_distinct_uppercase() {
    for count in [0usize, 1, 2, 4] {
        let letters = generate_x_chars(count);
        assert_eq!(letters.len(), count);
        assert!(letters.iter().all(|b| b.is_ascii_uppercase()));
        for i in 0..letters.len() {
            for j in 0..i {
                assert_ne!(letters[i], letters[j]);
            }
        }
    }
}

#[test]
fn generate_x_chars_all_letters_is_a_permutation() {
    let mut letters = generate_x_chars(26);
    letters.sort();
    assert_eq!(letters, (b'A'..=b'Z').collect::<Vec<u8>>());
}
