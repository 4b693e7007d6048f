//! Note names: "C4", "F#5", and back to MIDI note numbers.

use vstd::prelude::*;
use vstd::string::StringExecFns;
use crate::text::{chars_of, decimal_text, digit_value, push_decimal};

verus! {

/// The name of a pitch class, 0 to 11, as characters; that of C for any
/// other value.
pub open spec fn pitch_class_text(class: int) -> Seq<char> {
    if class == 1 {
        seq!['C', '#']
    } else if class == 2 {
        seq!['D']
    } else if class == 3 {
        seq!['D', '#']
    } else if class == 4 {
        seq!['E']
    } else if class == 5 {
        seq!['F']
    } else if class == 6 {
        seq!['F', '#']
    } else if class == 7 {
        seq!['G']
    } else if class == 8 {
        seq!['G', '#']
    } else if class == 9 {
        seq!['A']
    } else if class == 10 {
        seq!['A', '#']
    } else if class == 11 {
        seq!['B']
    } else {
        seq!['C']
    }
}

/// The name of a MIDI note number: its pitch class, then its octave, which
/// is the number divided by 12, less one.
pub open spec fn note_name_text(note: u8) -> Seq<char> {
    if note < 12 {
        pitch_class_text(note as int) + seq!['-', '1']
    } else {
        pitch_class_text(note as int % 12) + decimal_text((note as int / 12 - 1) as nat)
    }
}

/// The pitch class of a letter that stands alone.
pub open spec fn natural_class(c: char) -> Option<int> {
    if c == 'C' {
        Some(0int)
    } else if c == 'D' {
        Some(2int)
    } else if c == 'E' {
        Some(4int)
    } else if c == 'F' {
        Some(5int)
    } else if c == 'G' {
        Some(7int)
    } else if c == 'A' {
        Some(9int)
    } else if c == 'B' {
        Some(11int)
    } else {
        None
    }
}

/// The pitch class of a letter that a sharp sign follows.
pub open spec fn sharp_class(c: char) -> Option<int> {
    if c == 'C' {
        Some(1int)
    } else if c == 'D' {
        Some(3int)
    } else if c == 'F' {
        Some(6int)
    } else if c == 'G' {
        Some(8int)
    } else if c == 'A' {
        Some(10int)
    } else {
        None
    }
}

/// The pitch class that characters name, if they name one: a letter from
/// A to G, or one of C, D, F, G and A with a sharp sign behind it.
pub open spec fn pitch_class_of(s: Seq<char>) -> Option<int> {
    if s.len() == 1 {
        natural_class(s[0])
    } else if s.len() == 2 && s[1] == '#' {
        sharp_class(s[0])
    } else {
        None
    }
}

/// The character is white space as Unicode defines it.
pub open spec fn is_space(c: char) -> bool {
    let u = c as u32;
    (0x09 <= u <= 0x0D) || u == 0x20 || u == 0x85 || u == 0xA0 || u == 0x1680 || (0x2000 <= u
        <= 0x200A) || u == 0x2028 || u == 0x2029 || u == 0x202F || u == 0x205F || u == 0x3000
}

/// Index of the first character at or behind `from` that is no white
/// space; the length of `s` if there is none.
pub open spec fn skip_spaces(s: Seq<char>, from: int) -> int
    decreases s.len() - from,
{
    if 0 <= from < s.len() && is_space(s[from]) {
        skip_spaces(s, from + 1)
    } else {
        from
    }
}

/// Index behind the last character before `to` that is no white space; 0
/// if there is none.
pub open spec fn drop_spaces(s: Seq<char>, to: int) -> int
    decreases to,
{
    if 0 < to <= s.len() && is_space(s[to - 1]) {
        drop_spaces(s, to - 1)
    } else {
        to
    }
}

/// `s` without the white space at its two ends.
pub open spec fn trimmed(s: Seq<char>) -> Seq<char> {
    let from = skip_spaces(s, 0);
    let to = drop_spaces(s, s.len() as int);
    if from >= to {
        Seq::<char>::empty()
    } else {
        s.subrange(from, to)
    }
}

/// The character can begin an octave: a digit or a minus sign.
pub open spec fn begins_octave(c: char) -> bool {
    digit_value(c).is_some() || c == '-'
}

/// Index of the first character at or behind `from` that can begin an
/// octave; the length of `s` if there is none.
pub open spec fn octave_start(s: Seq<char>, from: int) -> int
    decreases s.len() - from,
{
    if 0 <= from < s.len() && !begins_octave(s[from]) {
        octave_start(s, from + 1)
    } else {
        from
    }
}

/// The number that the digits of `s` before `upto` stand for, or `None`
/// if one of them is no digit.
pub open spec fn digits_value(s: Seq<char>, upto: int) -> Option<int>
    decreases upto,
{
    if upto <= 0 {
        Some(0int)
    } else {
        match (digits_value(s, upto - 1), digit_value(s[upto - 1])) {
            (Some(front), Some(d)) => Some(front * 10 + d),
            _ => None,
        }
    }
}

/// The number that `s` stands for: digits, at least one, behind an
/// optional minus sign.
pub open spec fn signed_value(s: Seq<char>) -> Option<int> {
    if s.len() > 0 && s[0] == '-' {
        let digits = s.subrange(1, s.len() as int);
        if digits.len() == 0 {
            None
        } else {
            match digits_value(digits, digits.len() as int) {
                Some(v) => Some(-v),
                None => None,
            }
        }
    } else if s.len() == 0 {
        None
    } else {
        digits_value(s, s.len() as int)
    }
}

/// The MIDI note number that a name stands for: a pitch class followed
/// by an octave, white space around them ignored. `None` if the name has
/// another form or the number is not one of 0 to 127.
pub open spec fn note_of_name(name: Seq<char>) -> Option<u8> {
    let t = trimmed(name);
    let start = octave_start(t, 0);
    if start >= t.len() {
        None
    } else {
        match (pitch_class_of(t.subrange(0, start)), signed_value(t.subrange(start, t.len() as int))) {
            (Some(class), Some(octave)) => {
                let number = (octave + 1) * 12 + class;
                if 0 <= number <= 127 {
                    Some(number as u8)
                } else {
                    None
                }
            },
            _ => None,
        }
    }
}

/// The name of a pitch class, 0 to 11.
pub fn pitch_class_name(class: u8) -> (name: &'static str)
    ensures
        name@ == pitch_class_text(class as int),
{
    proof {
        reveal_strlit("C");
        reveal_strlit("C#");
        reveal_strlit("D");
        reveal_strlit("D#");
        reveal_strlit("E");
        reveal_strlit("F");
        reveal_strlit("F#");
        reveal_strlit("G");
        reveal_strlit("G#");
        reveal_strlit("A");
        reveal_strlit("A#");
        reveal_strlit("B");
    }
    let name = if class == 1 {
        "C#"
    } else if class == 2 {
        "D"
    } else if class == 3 {
        "D#"
    } else if class == 4 {
        "E"
    } else if class == 5 {
        "F"
    } else if class == 6 {
        "F#"
    } else if class == 7 {
        "G"
    } else if class == 8 {
        "G#"
    } else if class == 9 {
        "A"
    } else if class == 10 {
        "A#"
    } else if class == 11 {
        "B"
    } else {
        "C"
    };
    assert(name@ =~= pitch_class_text(class as int));
    name
}

/// The name of a MIDI note number, such as "C4" for 60 and "C-1" for 0.
pub fn note_to_name(note: u8) -> (name: String)
    ensures
        name@ == note_name_text(note),
{
    let mut name = String::from_str(pitch_class_name(note % 12));
    if note < 12 {
        proof {
            reveal_strlit("-1");
        }
        name.append("-1");
        assert(name@ =~= note_name_text(note));
    } else {
        push_decimal((note / 12 - 1) as u64, &mut name);
        assert(name@ =~= note_name_text(note));
    }
    name
}

/// Whether the character is white space as Unicode defines it.
pub fn space(c: char) -> (yes: bool)
    ensures
        yes == is_space(c),
{
    let u = c as u32;
    (0x09 <= u && u <= 0x0D) || u == 0x20 || u == 0x85 || u == 0xA0 || u == 0x1680 || (0x2000 <= u
        && u <= 0x200A) || u == 0x2028 || u == 0x2029 || u == 0x202F || u == 0x205F || u == 0x3000
}

/// The value of a decimal digit character.
fn digit_of(c: char) -> (value: Option<u8>)
    ensures
        match value {
            Some(d) => digit_value(c) == Some(d as int) && d < 10,
            None => digit_value(c).is_none(),
        },
{
    if c == '0' {
        Some(0)
    } else if c == '1' {
        Some(1)
    } else if c == '2' {
        Some(2)
    } else if c == '3' {
        Some(3)
    } else if c == '4' {
        Some(4)
    } else if c == '5' {
        Some(5)
    } else if c == '6' {
        Some(6)
    } else if c == '7' {
        Some(7)
    } else if c == '8' {
        Some(8)
    } else if c == '9' {
        Some(9)
    } else {
        None
    }
}

/// The pitch class named by the characters from `from` up to `to`.
fn class_of(chars: &Vec<char>, from: usize, to: usize) -> (class: Option<u8>)
    requires
        from <= to <= chars@.len(),
    ensures
        match class {
            Some(c) => pitch_class_of(chars@.subrange(from as int, to as int)) == Some(c as int) && c < 12,
            None => pitch_class_of(chars@.subrange(from as int, to as int)).is_none(),
        },
{
    let ghost s = chars@.subrange(from as int, to as int);
    if to - from == 1 {
        let a = chars[from];
        assert(s[0] == a);
        if a == 'C' {
            Some(0)
        } else if a == 'D' {
            Some(2)
        } else if a == 'E' {
            Some(4)
        } else if a == 'F' {
            Some(5)
        } else if a == 'G' {
            Some(7)
        } else if a == 'A' {
            Some(9)
        } else if a == 'B' {
            Some(11)
        } else {
            None
        }
    } else if to - from == 2 {
        let a = chars[from];
        let b = chars[from + 1];
        assert(s[0] == a && s[1] == b);
        if b != '#' {
            None
        } else if a == 'C' {
            Some(1)
        } else if a == 'D' {
            Some(3)
        } else if a == 'F' {
            Some(6)
        } else if a == 'G' {
            Some(8)
        } else if a == 'A' {
            Some(10)
        } else {
            None
        }
    } else {
        None
    }
}

/// Largest number that `number_of` tells apart: every larger one is far
/// beyond any octave.
pub const NUMBER_CAP: u32 = 1000;

/// The number that the digits from `from` up to `to` stand for, held at
/// `NUMBER_CAP`; `None` if one of the characters is no digit.
fn number_of(chars: &Vec<char>, from: usize, to: usize) -> (value: Option<u32>)
    requires
        from <= to <= chars@.len(),
    ensures
        match value {
            Some(v) => match digits_value(chars@.subrange(from as int, to as int), to - from) {
                Some(exact) => v == (if exact > NUMBER_CAP {
                    NUMBER_CAP as int
                } else {
                    exact
                }),
                None => false,
            },
            None => digits_value(chars@.subrange(from as int, to as int), to - from).is_none(),
        },
{
    let ghost s = chars@.subrange(from as int, to as int);
    let mut value: u32 = 0;
    let mut i: usize = from;
    while i < to
        invariant
            from <= i <= to <= chars@.len(),
            s == chars@.subrange(from as int, to as int),
            value <= NUMBER_CAP,
            match digits_value(s, i - from) {
                Some(exact) => exact >= 0 && value == (if exact > NUMBER_CAP {
                    NUMBER_CAP as int
                } else {
                    exact
                }),
                None => false,
            },
        decreases to - i,
    {
        assert(s[i - from] == chars@[i as int]);
        match digit_of(chars[i]) {
            Some(d) => {
                let next: u32 = value * 10 + d as u32;
                value = if next > NUMBER_CAP {
                    NUMBER_CAP
                } else {
                    next
                };
            },
            None => {
                proof {
                    lemma_digits_stay_none(s, i - from + 1, to - from);
                }
                return None;
            },
        }
        i += 1;
    }
    Some(value)
}

/// Once a character is no digit, no longer prefix has a value.
proof fn lemma_digits_stay_none(s: Seq<char>, at: int, upto: int)
    requires
        0 < at <= upto,
        digits_value(s, at).is_none(),
    ensures
        digits_value(s, upto).is_none(),
    decreases upto - at,
{
    if at < upto {
        lemma_digits_stay_none(s, at, upto - 1);
    }
}

/// The MIDI note number that a name such as "C4" or "F#5" stands for;
/// `None` if the name has another form or the number is not one of 0 to
/// 127.
pub fn name_to_note(name: &str) -> (note: Option<u8>)
    ensures
        note == note_of_name(name@),
{
    let chars = chars_of(name);
    let len = chars.len();
    let mut from: usize = 0;
    while from < len && space(chars[from])
        invariant
            from <= len,
            len == chars@.len(),
            skip_spaces(chars@, 0) == skip_spaces(chars@, from as int),
        decreases len - from,
    {
        from += 1;
    }
    let mut to: usize = len;
    while to > 0 && space(chars[to - 1])
        invariant
            to <= len,
            len == chars@.len(),
            drop_spaces(chars@, len as int) == drop_spaces(chars@, to as int),
        decreases to,
    {
        to -= 1;
    }
    if from >= to {
        assert(octave_start(Seq::<char>::empty(), 0) == 0);
        return None;
    }
    let ghost t = chars@.subrange(from as int, to as int);
    assert(t == trimmed(name@));
    let mut start: usize = from;
    while start < to && !(digit_of(chars[start]).is_some() || chars[start] == '-')
        invariant
            from <= start <= to <= len,
            len == chars@.len(),
            t == chars@.subrange(from as int, to as int),
            octave_start(t, 0) == octave_start(t, start - from),
        decreases to - start,
    {
        assert(t[start - from] == chars@[start as int]);
        start += 1;
    }
    proof {
        if start < to {
            assert(t[start - from] == chars@[start as int]);
        }
        assert(octave_start(t, 0) == start - from);
        assert(t.subrange(0, start - from) =~= chars@.subrange(from as int, start as int));
        assert(t.subrange(start - from, t.len() as int) =~= chars@.subrange(start as int, to as int));
    }
    if start >= to {
        return None;
    }
    let class = match class_of(&chars, from, start) {
        Some(c) => c,
        None => {
            return None;
        },
    };
    let ghost tail = chars@.subrange(start as int, to as int);
    let negative = chars[start] == '-';
    assert(tail[0] == chars@[start as int]);
    let digits_from: usize = if negative {
        start + 1
    } else {
        start
    };
    if digits_from >= to {
        return None;
    }
    proof {
        if negative {
            assert(tail.subrange(1, tail.len() as int) =~= chars@.subrange(
                digits_from as int,
                to as int,
            ));
        }
    }
    let magnitude = match number_of(&chars, digits_from, to) {
        Some(v) => v,
        None => {
            return None;
        },
    };
    let octave: i32 = if negative {
        -(magnitude as i32)
    } else {
        magnitude as i32
    };
    let number: i32 = (octave + 1) * 12 + class as i32;
    if 0 <= number && number <= 127 {
        Some(number as u8)
    } else {
        None
    }
}

} // verus!
