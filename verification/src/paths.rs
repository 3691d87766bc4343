//! A character-level model of file paths.
//!
//! A path is a sequence of characters; components are separated by `'/'`. The
//! file name is everything after the last separator (the whole path when there
//! is none), and the extension is the part of the file name after its last
//! `'.'`, provided that dot is neither absent nor the file name's first
//! character — so a name such as `.hidden` has no extension, while `a.tar.gz`
//! has extension `gz` and `a.` has the empty extension.

use vstd::prelude::*;

verus! {

/// Index of the last occurrence of `c` in `s`, or `-1` when `c` does not occur.
pub open spec fn last_pos(s: Seq<char>, c: char) -> int
    decreases s.len(),
{
    if s.len() == 0 {
        -1
    } else if s[s.len() - 1] == c {
        s.len() - 1
    } else {
        last_pos(s.drop_last(), c)
    }
}

/// `last_pos` points at an occurrence of `c`, after which `c` never occurs;
/// `-1` means `c` does not occur at all.
pub proof fn lemma_last_pos(s: Seq<char>, c: char)
    ensures
        -1 <= last_pos(s, c) < s.len(),
        last_pos(s, c) >= 0 ==> s[last_pos(s, c)] == c,
        forall|j: int| last_pos(s, c) < j < s.len() ==> s[j] != c,
    decreases s.len(),
{
    if s.len() > 0 && s[s.len() - 1] != c {
        lemma_last_pos(s.drop_last(), c);
        assert forall|j: int| last_pos(s, c) < j < s.len() implies s[j] != c by {
            if j < s.len() - 1 {
                assert(s.drop_last()[j] == s[j]);
            }
        }
    }
}

/// A character that occurs nowhere in `s` has no last position.
pub proof fn lemma_last_pos_absent(s: Seq<char>, c: char)
    requires
        forall|j: int| 0 <= j < s.len() ==> s[j] != c,
    ensures
        last_pos(s, c) == -1,
{
    lemma_last_pos(s, c);
}

/// How `last_pos` behaves on a concatenation: the right part wins when it
/// contains `c`; otherwise the position comes from the left part.
pub proof fn lemma_last_pos_concat(a: Seq<char>, b: Seq<char>, c: char)
    ensures
        last_pos(a + b, c) == if last_pos(b, c) >= 0 {
            a.len() + last_pos(b, c)
        } else {
            last_pos(a, c)
        },
    decreases b.len(),
{
    if b.len() == 0 {
        assert(a + b =~= a);
    } else {
        let ab = a + b;
        assert(ab[ab.len() - 1] == b[b.len() - 1]);
        if b[b.len() - 1] == c {
        } else {
            assert(ab.drop_last() =~= a + b.drop_last());
            lemma_last_pos_concat(a, b.drop_last(), c);
        }
    }
}

/// Length of the directory prefix of `p`, including the final `'/'`; `0` when
/// `p` has no separator.
pub open spec fn spec_dir_len(p: Seq<char>) -> int {
    last_pos(p, '/') + 1
}

/// The directory prefix of `p` (empty, or ending in `'/'`).
pub open spec fn spec_dir(p: Seq<char>) -> Seq<char> {
    p.subrange(0, spec_dir_len(p))
}

/// The file-name part of `p`: everything after the last `'/'`.
pub open spec fn spec_file_name(p: Seq<char>) -> Seq<char> {
    p.subrange(spec_dir_len(p), p.len() as int)
}

/// The extension of `p`: the part of the file name after its last `'.'`.
/// There is none when the file name has no dot, or when the only role the dot
/// plays is to lead a hidden file (its first character).
pub open spec fn spec_extension(p: Seq<char>) -> Option<Seq<char>> {
    let f = spec_file_name(p);
    let d = last_pos(f, '.');
    if d <= 0 {
        None
    } else {
        Some(f.subrange(d + 1, f.len() as int))
    }
}

/// Replacing the file name of `p` keeps its directory prefix.
pub open spec fn spec_with_file_name(p: Seq<char>, name: Seq<char>) -> Seq<char> {
    spec_dir(p) + name
}

/// Index one past the last occurrence of `c` in `s` (`0` when absent).
fn scan_after_last(s: &str, c: char) -> (r: usize)
    ensures
        r == last_pos(s@, c) + 1,
{
    let n = s.unicode_len();
    let mut i: usize = 0;
    let mut r: usize = 0;
    while i < n
        invariant
            n == s@.len(),
            i <= n,
            r == last_pos(s@.subrange(0, i as int), c) + 1,
            r <= i,
        decreases n - i,
    {
        let ci = s.get_char(i);
        assert(s@.subrange(0, i + 1).drop_last() =~= s@.subrange(0, i as int));
        assert(s@.subrange(0, i + 1)[i as int] == s@[i as int]);
        if ci == c {
            r = i + 1;
        }
        i = i + 1;
    }
    assert(s@.subrange(0, n as int) =~= s@);
    r
}

/// Executable extension lookup, agreeing with [`spec_extension`].
pub fn extension_of(p: &str) -> (r: Option<String>)
    ensures
        r is Some <==> spec_extension(p@) is Some,
        r matches Some(e) ==> Some(e@) == spec_extension(p@),
{
    let n = p.unicode_len();
    let fstart = scan_after_last(p, '/');
    proof {
        lemma_last_pos(p@, '/');
    }
    let name = p.substring_char(fstart, n);
    proof {
        assert(name@ =~= spec_file_name(p@));
    }
    let fn_len = name.unicode_len();
    let dot = scan_after_last(name, '.');
    proof {
        lemma_last_pos(name@, '.');
    }
    if dot <= 1 {
        None
    } else {
        let ext = name.substring_char(dot, fn_len);
        proof {
            let d = last_pos(name@, '.');
            assert(ext@ =~= name@.subrange(d + 1, name@.len() as int));
        }
        Some(ext.to_owned())
    }
}

/// Executable form of [`spec_with_file_name`]: the directory prefix of `p`
/// with `name` in place of the old file name.
pub fn with_file_name(p: &str, name: &str) -> (r: String)
    ensures
        r@ == spec_with_file_name(p@, name@),
{
    let dlen = scan_after_last(p, '/');
    proof {
        lemma_last_pos(p@, '/');
    }
    let dir = p.substring_char(0, dlen);
    assert(dir@ =~= spec_dir(p@));
    dir.to_owned().concat(name)
}

} // verus!
