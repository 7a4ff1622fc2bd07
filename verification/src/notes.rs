//! Note names and the keys they stand for.
//!
//! A key is a pitch counted in semitones. A note name is a pitch letter with
//! an optional sharp (`#`) or flat (`b`), and an octave digit; `C0` is key 24
//! and each octave adds 12.

use vstd::prelude::*;

verus! {

/// The number of semitones in an octave.
pub const OCTAVE: u8 = 12;

/// A note name that stands for no key.
#[derive(Clone, Copy, Debug, PartialEq, Eq, Structural)]
pub enum NoteError {
    /// The pitch letter is none of the twelve supported, in either spelling.
    InvalidNoteName,
}

/// The key of a pitch letter in octave 0, or `None` for a token that is no
/// supported pitch letter. `C` in octave 0 is key 24; the five raised pitches
/// have two spellings each.
pub open spec fn base_offset(letter: Seq<char>) -> Option<u8> {
    if letter =~= seq!['C'] {
        Some(24u8)
    } else if letter =~= seq!['C', '#'] || letter =~= seq!['D', 'b'] {
        Some(25u8)
    } else if letter =~= seq!['D'] {
        Some(26u8)
    } else if letter =~= seq!['D', '#'] || letter =~= seq!['E', 'b'] {
        Some(27u8)
    } else if letter =~= seq!['E'] {
        Some(28u8)
    } else if letter =~= seq!['F'] {
        Some(29u8)
    } else if letter =~= seq!['F', '#'] || letter =~= seq!['G', 'b'] {
        Some(30u8)
    } else if letter =~= seq!['G'] {
        Some(31u8)
    } else if letter =~= seq!['G', '#'] || letter =~= seq!['A', 'b'] {
        Some(32u8)
    } else if letter =~= seq!['A'] {
        Some(33u8)
    } else if letter =~= seq!['A', '#'] || letter =~= seq!['B', 'b'] {
        Some(34u8)
    } else if letter =~= seq!['B'] {
        Some(35u8)
    } else {
        None
    }
}

/// The key that a pitch letter and an octave stand for: the letter's key in
/// octave 0 and 12 for each octave.
pub open spec fn named_key(letter: Seq<char>, octave: int) -> Result<int, NoteError> {
    match base_offset(letter) {
        Some(base) => Ok(base + OCTAVE * octave),
        None => Err(NoteError::InvalidNoteName),
    }
}

/// The key of a pitch letter in octave 0.
fn base_key(letter: &str) -> (base: Option<u8>)
    ensures
        base == base_offset(letter@),
{
    let len = letter.unicode_len();
    if len == 1 {
        let natural = letter.get_char(0);
        assert(letter@ =~= seq![natural]);
        if natural == 'C' {
            Some(24)
        } else if natural == 'D' {
            Some(26)
        } else if natural == 'E' {
            Some(28)
        } else if natural == 'F' {
            Some(29)
        } else if natural == 'G' {
            Some(31)
        } else if natural == 'A' {
            Some(33)
        } else if natural == 'B' {
            Some(35)
        } else {
            None
        }
    } else if len == 2 {
        let natural = letter.get_char(0);
        let accidental = letter.get_char(1);
        assert(letter@ =~= seq![natural, accidental]);
        if accidental == '#' {
            if natural == 'C' {
                Some(25)
            } else if natural == 'D' {
                Some(27)
            } else if natural == 'F' {
                Some(30)
            } else if natural == 'G' {
                Some(32)
            } else if natural == 'A' {
                Some(34)
            } else {
                None
            }
        } else if accidental == 'b' {
            if natural == 'D' {
                Some(25)
            } else if natural == 'E' {
                Some(27)
            } else if natural == 'G' {
                Some(30)
            } else if natural == 'A' {
                Some(32)
            } else if natural == 'B' {
                Some(34)
            } else {
                None
            }
        } else {
            None
        }
    } else {
        None
    }
}

/// The key of the pitch letter `note` in `octave`.
///
/// `note` is one of `C`, `C#`/`Db`, `D`, `D#`/`Eb`, `E`, `F`, `F#`/`Gb`, `G`,
/// `G#`/`Ab`, `A`, `A#`/`Bb`, `B`; any other token is reported as
/// `InvalidNoteName`. The octave is a single digit.
pub fn note_to_key(note: &str, octave: u8) -> (key: Result<u8, NoteError>)
    requires
        octave <= 9,
    ensures
        match named_key(note@, octave as int) {
            Ok(k) => key == Ok::<u8, NoteError>(k as u8) && k <= 143,
            Err(e) => key == Err::<u8, NoteError>(e),
        },
{
    match base_key(note) {
        Some(base) => Ok(base + octave * OCTAVE),
        None => Err(NoteError::InvalidNoteName),
    }
}

/// Whether a character beyond ASCII is numeric as `char::is_numeric` has it:
/// in one of Unicode's general categories for numbers. The categories are
/// tables of the standard library; the name stands for them.
pub uninterp spec fn is_numeric_char(c: char) -> bool;

/// `char::is_numeric` tells whether a character is in one of Unicode's
/// general categories for numbers. Of the ASCII characters, those are the
/// decimal digits and no others.
pub assume_specification[ char::is_numeric ](c: char) -> (numeric: bool)
    ensures
        (c as u32) < 128 ==> numeric == ('0' as u32 <= c as u32 <= '9' as u32),
        (c as u32) >= 128 ==> numeric == is_numeric_char(c),
;

/// Whether `c` is numeric: a decimal digit, or a character beyond ASCII
/// that is in one of Unicode's general categories for numbers.
pub open spec fn is_numeric(c: char) -> bool {
    if (c as u32) < 128 {
        '0' as u32 <= c as u32 <= '9' as u32
    } else {
        is_numeric_char(c)
    }
}

/// The value of an ASCII decimal digit, or `None` for any other character.
pub open spec fn decimal_digit(c: char) -> Option<u8> {
    if '0' as u32 <= c as u32 <= '9' as u32 {
        Some((c as u32 - '0' as u32) as u8)
    } else {
        None
    }
}

/// The pitch letter of a note name: the name without the numeric characters
/// at its end.
pub open spec fn letter_of(name: Seq<char>) -> Seq<char>
    decreases name.len(),
{
    if name.len() > 0 && is_numeric(name.last()) {
        letter_of(name.drop_last())
    } else {
        name
    }
}

/// The octave of a note name: its last character as a decimal digit, and 0
/// where the name is empty or ends in anything else.
pub open spec fn octave_of(name: Seq<char>) -> u8 {
    if name.len() > 0 && decimal_digit(name.last()) is Some {
        decimal_digit(name.last())->Some_0
    } else {
        0
    }
}

/// The value of an ASCII decimal digit.
fn digit_value(c: char) -> (value: Option<u8>)
    ensures
        value == decimal_digit(c),
        value matches Some(digit) ==> digit <= 9,
{
    let code: u32 = c as u32;
    if 48 <= code && code <= 57 {
        Some((code - 48) as u8)
    } else {
        None
    }
}

/// The key of a note name such as `G3` or `Bb2`: a pitch letter and an octave
/// digit.
///
/// The octave is the last character, taken as one decimal digit; a name that
/// ends in no digit, or is empty, is in octave 0. The pitch letter is the
/// name without the numeric characters at its end. A pitch letter that is
/// none of the supported ones is reported as `InvalidNoteName`.
pub fn note_string_to_key(note_string: &str) -> (key: Result<u8, NoteError>)
    ensures
        match named_key(letter_of(note_string@), octave_of(note_string@) as int) {
            Ok(k) => key == Ok::<u8, NoteError>(k as u8) && k <= 143,
            Err(e) => key == Err::<u8, NoteError>(e),
        },
{
    let len = note_string.unicode_len();
    let octave: u8 = if len > 0 {
        match digit_value(note_string.get_char(len - 1)) {
            Some(digit) => digit,
            None => 0,
        }
    } else {
        0
    };
    let mut end: usize = len;
    let mut trimmed: bool = false;
    assert(note_string@.take(len as int) =~= note_string@);
    while !trimmed && end > 0
        invariant
            len == note_string@.len(),
            end <= len,
            letter_of(note_string@) == letter_of(note_string@.take(end as int)),
            trimmed ==> end > 0 && !is_numeric(note_string@[end - 1]),
        decreases end + if trimmed { 0int } else { 1int },
    {
        if note_string.get_char(end - 1).is_numeric() {
            assert(note_string@.take(end as int).drop_last() =~= note_string@.take(end - 1));
            end -= 1;
        } else {
            trimmed = true;
        }
    }
    let letter = note_string.substring_char(0, end);
    assert(letter@ =~= note_string@.take(end as int));
    note_to_key(letter, octave)
}

/// The keys of the twelve pitches in octave 0, in both spellings of the
/// raised ones.
pub proof fn lemma_base_offsets()
    ensures
        base_offset(seq!['C']) == Some(24u8),
        base_offset(seq!['C', '#']) == Some(25u8),
        base_offset(seq!['D', 'b']) == Some(25u8),
        base_offset(seq!['D']) == Some(26u8),
        base_offset(seq!['D', '#']) == Some(27u8),
        base_offset(seq!['E', 'b']) == Some(27u8),
        base_offset(seq!['E']) == Some(28u8),
        base_offset(seq!['F']) == Some(29u8),
        base_offset(seq!['F', '#']) == Some(30u8),
        base_offset(seq!['G', 'b']) == Some(30u8),
        base_offset(seq!['G']) == Some(31u8),
        base_offset(seq!['G', '#']) == Some(32u8),
        base_offset(seq!['A', 'b']) == Some(32u8),
        base_offset(seq!['A']) == Some(33u8),
        base_offset(seq!['A', '#']) == Some(34u8),
        base_offset(seq!['B', 'b']) == Some(34u8),
        base_offset(seq!['B']) == Some(35u8),
{
    assert(seq!['C'][0] == 'C' && seq!['D'][0] == 'D' && seq!['E'][0] == 'E' && seq!['F'][0] == 'F'
        && seq!['G'][0] == 'G' && seq!['A'][0] == 'A' && seq!['B'][0] == 'B');
    assert(seq!['C', '#'][0] == 'C' && seq!['D', '#'][0] == 'D' && seq!['F', '#'][0] == 'F'
        && seq!['G', '#'][0] == 'G' && seq!['A', '#'][0] == 'A');
    assert(seq!['D', 'b'][0] == 'D' && seq!['E', 'b'][0] == 'E' && seq!['G', 'b'][0] == 'G'
        && seq!['A', 'b'][0] == 'A' && seq!['B', 'b'][0] == 'B');
    assert(seq!['C', '#'][1] == '#' && seq!['D', 'b'][1] == 'b');
}

/// A supported pitch letter ends in no numeric character: taken as a note
/// name, it is its own pitch letter, in octave 0.
pub proof fn lemma_letter_alone(letter: Seq<char>)
    requires
        base_offset(letter) is Some,
    ensures
        letter_of(letter) == letter,
        octave_of(letter) == 0,
        named_key(letter_of(letter), octave_of(letter) as int) == named_key(letter, 0),
{
    assert(letter.len() > 0);
    let last = letter.last();
    assert(last == 'A' || last == 'B' || last == 'C' || last == 'D' || last == 'E' || last == 'F'
        || last == 'G' || last == '#' || last == 'b');
}

/// A note name made of a supported pitch letter and one decimal digit stands
/// for that letter in the octave of the digit.
pub proof fn lemma_letter_and_octave(letter: Seq<char>, digit: char)
    requires
        base_offset(letter) is Some,
        decimal_digit(digit) is Some,
    ensures
        letter_of(letter.push(digit)) == letter,
        octave_of(letter.push(digit)) == decimal_digit(digit)->Some_0,
        named_key(letter_of(letter.push(digit)), octave_of(letter.push(digit)) as int)
            == named_key(letter, decimal_digit(digit)->Some_0 as int),
{
    let name = letter.push(digit);
    assert(name.last() == digit);
    assert(name.drop_last() =~= letter);
    lemma_letter_alone(letter);
}

/// The vocal range of a singer.
#[derive(Clone, Copy, Debug, PartialEq, Eq, PartialOrd, Ord, Structural)]
pub enum ToneRange {
    Bass,
    Baritone,
    Tenor,
    Alto,
    MezzoSoprano,
    Soprano,
}

/// The pitch letter and the octave of the lowest note of a vocal range; its
/// highest note is two octaves above. Where no range is given, it is that of
/// a baritone.
pub open spec fn lowest_note(range: Option<ToneRange>) -> (char, int) {
    match range {
        Some(ToneRange::Bass) => ('E', 2),
        Some(ToneRange::Baritone) => ('A', 2),
        Some(ToneRange::Tenor) => ('C', 3),
        Some(ToneRange::Alto) => ('F', 3),
        Some(ToneRange::MezzoSoprano) => ('A', 3),
        Some(ToneRange::Soprano) => ('C', 4),
        None => ('A', 2),
    }
}

/// The lowest and the highest key of a vocal range, two octaves apart; the
/// range of a baritone where none is given.
///
/// Bass is E2 to E4, baritone A2 to A4, tenor C3 to C5, alto F3 to F5,
/// mezzo-soprano A3 to A5, soprano C4 to C6.
pub open spec fn tone_range(range: Option<ToneRange>) -> (u8, u8) {
    match range {
        Some(ToneRange::Bass) => (52u8, 76u8),
        Some(ToneRange::Baritone) => (57u8, 81u8),
        Some(ToneRange::Tenor) => (60u8, 84u8),
        Some(ToneRange::Alto) => (65u8, 89u8),
        Some(ToneRange::MezzoSoprano) => (69u8, 93u8),
        Some(ToneRange::Soprano) => (72u8, 96u8),
        None => (57u8, 81u8),
    }
}

/// The key in octave 0 of a token that is one of the natural pitch letters.
proof fn lemma_natural_letter(token: Seq<char>, letter: char)
    requires
        token.len() == 1,
        token[0] == letter,
        letter == 'A' || letter == 'C' || letter == 'E' || letter == 'F',
    ensures
        token == seq![letter],
        base_offset(token) == Some(
            if letter == 'A' {
                33u8
            } else if letter == 'C' {
                24u8
            } else if letter == 'E' {
                28u8
            } else {
                29u8
            },
        ),
{
    assert(token =~= seq![letter]);
}

/// The bounds of a vocal range are the keys of its lowest note and of the
/// note two octaves above it.
pub proof fn lemma_tone_range_notes(range: Option<ToneRange>)
    ensures
        named_key(seq![lowest_note(range).0], lowest_note(range).1) == Ok::<int, NoteError>(
            tone_range(range).0 as int,
        ),
        named_key(seq![lowest_note(range).0], lowest_note(range).1 + 2) == Ok::<int, NoteError>(
            tone_range(range).1 as int,
        ),
        tone_range(range).1 == tone_range(range).0 + 2 * OCTAVE,
{
    let letter = lowest_note(range).0;
    lemma_natural_letter(seq![letter], letter);
}

/// The key of a note name that is known to stand for one.
fn key_of(name: &str) -> (key: u8)
    requires
        named_key(letter_of(name@), octave_of(name@) as int) is Ok,
    ensures
        key == named_key(letter_of(name@), octave_of(name@) as int)->Ok_0,
{
    match note_string_to_key(name) {
        Ok(key) => key,
        Err(_) => 0,
    }
}

/// The key of a note name of two characters, a natural pitch letter and a
/// digit.
proof fn lemma_natural_note(name: Seq<char>, letter: char, digit: char)
    requires
        name.len() == 2,
        name[0] == letter,
        name[1] == digit,
        letter == 'A' || letter == 'C' || letter == 'E' || letter == 'F',
        decimal_digit(digit) is Some,
    ensures
        named_key(letter_of(name), octave_of(name) as int) == Ok::<int, NoteError>(
            (if letter == 'A' {
                33int
            } else if letter == 'C' {
                24int
            } else if letter == 'E' {
                28int
            } else {
                29int
            }) + 12 * (digit as u32 - '0' as u32),
        ),
{
    lemma_natural_letter(seq![letter], letter);
    lemma_letter_and_octave(seq![letter], digit);
    assert(name =~= seq![letter].push(digit));
}

/// The lowest and the highest key of a vocal range; the range of a baritone
/// where none is given.
pub fn get_tone_range(range: Option<ToneRange>) -> (keys: (u8, u8))
    ensures
        keys == tone_range(range),
{
    proof {
        reveal_strlit("E2");
        reveal_strlit("E4");
        reveal_strlit("A2");
        reveal_strlit("A4");
        reveal_strlit("C3");
        reveal_strlit("C5");
        reveal_strlit("F3");
        reveal_strlit("F5");
        reveal_strlit("A3");
        reveal_strlit("A5");
        reveal_strlit("C4");
        reveal_strlit("C6");
        lemma_natural_note("E2"@, 'E', '2');
        lemma_natural_note("E4"@, 'E', '4');
        lemma_natural_note("A2"@, 'A', '2');
        lemma_natural_note("A4"@, 'A', '4');
        lemma_natural_note("C3"@, 'C', '3');
        lemma_natural_note("C5"@, 'C', '5');
        lemma_natural_note("F3"@, 'F', '3');
        lemma_natural_note("F5"@, 'F', '5');
        lemma_natural_note("A3"@, 'A', '3');
        lemma_natural_note("A5"@, 'A', '5');
        lemma_natural_note("C4"@, 'C', '4');
        lemma_natural_note("C6"@, 'C', '6');
    }
    match range {
        Some(ToneRange::Bass) => (key_of("E2"), key_of("E4")),
        Some(ToneRange::Baritone) => (key_of("A2"), key_of("A4")),
        Some(ToneRange::Tenor) => (key_of("C3"), key_of("C5")),
        Some(ToneRange::Alto) => (key_of("F3"), key_of("F5")),
        Some(ToneRange::MezzoSoprano) => (key_of("A3"), key_of("A5")),
        Some(ToneRange::Soprano) => (key_of("C4"), key_of("C6")),
        None => (key_of("A2"), key_of("A4")),
    }
}

/// A bound of a key range: the key of the note name given for it, or the
/// fallback where none is given.
pub open spec fn bound_key(name: Option<&str>, fallback: u8) -> Result<int, NoteError> {
    match name {
        Some(name) => named_key(letter_of(name@), octave_of(name@) as int),
        None => Ok(fallback as int),
    }
}

/// The key range of a run: each bound is the key of the note name given for
/// it, and the bound of the vocal range where none is given. A name that
/// stands for no key is reported.
pub fn get_key_range(from: Option<&str>, to: Option<&str>, range: Option<ToneRange>) -> (keys:
    Result<(u8, u8), NoteError>)
    ensures
        match (bound_key(from, tone_range(range).0), bound_key(to, tone_range(range).1)) {
            (Ok(low), Ok(high)) => keys == Ok::<(u8, u8), NoteError>((low as u8, high as u8)),
            _ => keys == Err::<(u8, u8), NoteError>(NoteError::InvalidNoteName),
        },
{
    let (range_from, range_to) = get_tone_range(range);
    let low: u8 = match from {
        Some(name) => match note_string_to_key(name) {
            Ok(key) => key,
            Err(error) => {
                return Err(error);
            },
        },
        None => range_from,
    };
    let high: u8 = match to {
        Some(name) => match note_string_to_key(name) {
            Ok(key) => key,
            Err(error) => {
                return Err(error);
            },
        },
        None => range_to,
    };
    Ok((low, high))
}

} // verus!
