//! ASCII case folding on characters and character sequences.

use vstd::prelude::*;

verus! {

/// ASCII-lowercase a single character: 'A'..'Z' map to 'a'..'z', everything
/// else is unchanged.
pub open spec fn lower_char(c: char) -> char {
    if 65 <= c as u32 && c as u32 <= 90 {
        ((c as u32 + 32) as u8) as char
    } else {
        c
    }
}

/// ASCII-lowercase every character of a sequence.
pub open spec fn lower_seq(s: Seq<char>) -> Seq<char> {
    s.map_values(|c: char| lower_char(c))
}

/// The characters a slug is made of: ASCII lowercase letters, digits and `'-'`.
pub open spec fn is_slug_char(c: char) -> bool {
    (97 <= c as u32 && c as u32 <= 122) || (48 <= c as u32 && c as u32 <= 57) || c == '-'
}

/// Executable ASCII lowercasing of one character.
pub fn lower_char_exec(c: char) -> (r: char)
    ensures
        r == lower_char(c),
{
    let u = c as u32;
    if 65 <= u && u <= 90 {
        ((u + 32) as u8) as char
    } else {
        c
    }
}

/// Case-insensitive (ASCII) equality of two strings.
pub fn eq_ignore_ascii_case(a: &str, b: &str) -> (r: bool)
    ensures
        r == (lower_seq(a@) == lower_seq(b@)),
{
    let na = a.unicode_len();
    let nb = b.unicode_len();
    if na != nb {
        return false;
    }
    let mut i: usize = 0;
    while i < na
        invariant
            na == a@.len(),
            na == b@.len(),
            i <= na,
            forall|j: int| 0 <= j < i ==> lower_char(a@[j]) == lower_char(b@[j]),
        decreases na - i,
    {
        let ca = a.get_char(i);
        let cb = b.get_char(i);
        if lower_char_exec(ca) != lower_char_exec(cb) {
            assert(lower_seq(a@)[i as int] != lower_seq(b@)[i as int]);
            return false;
        }
        i = i + 1;
    }
    assert(lower_seq(a@) =~= lower_seq(b@));
    true
}

} // verus!
