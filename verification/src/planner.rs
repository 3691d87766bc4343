//! Deriving the candidate file name from the metadata record and deciding
//! between renaming, previewing and doing nothing.

use vstd::prelude::*;

use crate::metadata::{FileError, FileMetadata};
use crate::paths::{
    extension_of, last_pos, lemma_last_pos, lemma_last_pos_absent, lemma_last_pos_concat,
    spec_dir, spec_dir_len, spec_extension, spec_file_name, spec_with_file_name, with_file_name,
};
use crate::slug_text::{slug_of, slugify_str};

verus! {

/// The separator put between the author and the title.
pub open spec fn spec_sep() -> Seq<char> {
    seq![' ', '-', ' ']
}

/// The name stem: the author followed by `" - "` when present, then the title
/// when present. Either part may be empty; both absent gives an empty stem.
pub open spec fn spec_stem(author: Option<Seq<char>>, title: Option<Seq<char>>) -> Seq<char> {
    (match author {
        Some(a) => a + spec_sep(),
        None => Seq::<char>::empty(),
    }) + (match title {
        Some(t) => t,
        None => Seq::<char>::empty(),
    })
}

/// The stem after the optional slug transformation.
pub open spec fn spec_transformed(stem: Seq<char>, slugify: bool) -> Seq<char> {
    if slugify {
        slug_of(stem)
    } else {
        stem
    }
}

/// The candidate file name: the (possibly slugified) stem with the original
/// extension reattached after a literal `'.'`.
pub open spec fn spec_new_name(
    author: Option<Seq<char>>,
    title: Option<Seq<char>>,
    slugify: bool,
    ext: Seq<char>,
) -> Seq<char> {
    spec_transformed(spec_stem(author, title), slugify) + seq!['.'] + ext
}

/// The candidate path: the candidate file name resolved against the original
/// path's directory.
pub open spec fn spec_candidate(
    p: Seq<char>,
    author: Option<Seq<char>>,
    title: Option<Seq<char>>,
    slugify: bool,
) -> Seq<char>
    recommends
        spec_extension(p) is Some,
{
    spec_with_file_name(p, spec_new_name(author, title, slugify, spec_extension(p).unwrap()))
}

/// Re-deriving the name on the utility's own output changes nothing: once a
/// file stands at its candidate path, the candidate derived again from that
/// path, with the metadata and flags unchanged, is that path itself, and the
/// extension carried over is the original one.
///
/// This holds whenever the transformed stem is non-empty and free of `'/'`. A
/// degenerate stem — both fields absent, or a slug that comes out empty —
/// yields a name such as `.pdf`, which has no extension of its own any more;
/// and a `'/'` inside an unslugified stem would change which part of the
/// result counts as the file name.
pub proof fn lemma_rename_idempotent(
    p: Seq<char>,
    author: Option<Seq<char>>,
    title: Option<Seq<char>>,
    slugify: bool,
)
    requires
        spec_extension(p) is Some,
        spec_transformed(spec_stem(author, title), slugify).len() > 0,
        forall|i: int|
            0 <= i < spec_transformed(spec_stem(author, title), slugify).len()
                ==> spec_transformed(spec_stem(author, title), slugify)[i] != '/',
    ensures
        spec_extension(spec_candidate(p, author, title, slugify)) == spec_extension(p),
        spec_candidate(spec_candidate(p, author, title, slugify), author, title, slugify)
            == spec_candidate(p, author, title, slugify),
{
    let stem = spec_transformed(spec_stem(author, title), slugify);
    let ext = spec_extension(p).unwrap();
    let dir = spec_dir(p);
    let name = spec_file_name(p);
    let dot = seq!['.'];
    let f = stem + dot + ext;
    let c = spec_candidate(p, author, title, slugify);
    assert(c =~= dir + f);

    // The original extension holds neither '/' nor '.'.
    let dlp = last_pos(p, '/');
    lemma_last_pos(p, '/');
    assert(forall|k: int| 0 <= k < name.len() ==> name[k] == p[dlp + 1 + k] && name[k] != '/');
    let d = last_pos(name, '.');
    lemma_last_pos(name, '.');
    assert(forall|k: int| 0 <= k < ext.len() ==> ext[k] == name[d + 1 + k]);
    assert(forall|k: int| 0 <= k < ext.len() ==> ext[k] != '.' && ext[k] != '/');

    // The new file name holds no '/', so the directory prefix stays.
    lemma_last_pos_absent(ext, '/');
    lemma_last_pos_concat(stem + dot, ext, '/');
    lemma_last_pos_absent(dot, '/');
    lemma_last_pos_concat(stem, dot, '/');
    lemma_last_pos_absent(stem, '/');
    assert(last_pos(f, '/') == -1);
    lemma_last_pos_concat(dir, f, '/');
    if dlp >= 0 {
        assert(dir[dir.len() - 1] == p[dlp]);
        assert(last_pos(dir, '/') == dir.len() - 1);
    }
    assert(spec_dir_len(c) == dir.len());
    assert(spec_dir(c) =~= dir);
    assert(spec_file_name(c) =~= f);

    // The last '.' of the new file name is the one put before the extension.
    lemma_last_pos_absent(ext, '.');
    lemma_last_pos_concat(stem + dot, ext, '.');
    assert((stem + dot)[(stem + dot).len() - 1] == '.');
    assert(last_pos(stem + dot, '.') == stem.len());
    assert(last_pos(f, '.') == stem.len());
    assert(f.subrange(stem.len() as int + 1, f.len() as int) =~= ext);
    assert(spec_extension(c) == Some(ext));

    assert(spec_candidate(c, author, title, slugify) =~= dir + f);
}

/// Build the name stem from a metadata record.
pub fn build_stem(meta: &FileMetadata) -> (r: String)
    ensures
        r@ == spec_stem(meta.author_seq(), meta.title_seq()),
{
    let mut s = String::new();
    match &meta.author {
        Some(a) => {
            s.append(a.as_str());
            proof {
                reveal_strlit(" - ");
                assert(" - "@ =~= spec_sep());
            }
            s.append(" - ");
        },
        None => {},
    }
    match &meta.title {
        Some(t) => {
            s.append(t.as_str());
        },
        None => {},
    }
    proof {
        assert(s@ =~= spec_stem(meta.author_seq(), meta.title_seq()));
    }
    s
}

/// Build the candidate file name from a metadata record, the slug switch and
/// the extension to reattach.
pub fn candidate_file_name(meta: &FileMetadata, slugify: bool, ext: &str) -> (r: String)
    ensures
        r@ == spec_new_name(meta.author_seq(), meta.title_seq(), slugify, ext@),
{
    let stem = build_stem(meta);
    let base = if slugify {
        slugify_str(stem.as_str())
    } else {
        stem
    };
    proof {
        reveal_strlit(".");
        assert("."@ =~= seq!['.']);
    }
    let with_dot = base.concat(".");
    let r = with_dot.concat(ext);
    proof {
        assert(r@ =~= spec_new_name(meta.author_seq(), meta.title_seq(), slugify, ext@));
    }
    r
}

/// What is to happen with one file: nothing, or a rename to `to`.
pub enum Plan {
    NoOp,
    Rename { to: String },
}

/// Compute the candidate path and compare it with the original: byte-identical
/// means nothing is to be done, anything else is a planned rename.
pub fn plan_rename(path: &str, meta: &FileMetadata, slugify: bool) -> (r: Plan)
    requires
        spec_extension(path@) is Some,
    ensures
        ({
            let cand = spec_candidate(path@, meta.author_seq(), meta.title_seq(), slugify);
            &&& (r is NoOp <==> cand == path@)
            &&& (r matches Plan::Rename { to } ==> to@ == cand)
        }),
{
    let ext = extension_of(path).unwrap();
    let fname = candidate_file_name(meta, slugify, ext.as_str());
    let cand = with_file_name(path, fname.as_str());
    let orig = path.to_owned();
    if cand == orig {
        Plan::NoOp
    } else {
        Plan::Rename { to: cand }
    }
}

/// What the caller is to do with one file, the two flags already folded in.
pub enum Outcome {
    /// Report the error; touch nothing.
    Failed { error: FileError },
    /// The candidate equals the original path; touch nothing.
    NoOp,
    /// Report the planned rename only: the dry-run flag was set.
    DryRun { to: String },
    /// Perform the rename to `to`.
    Rename { to: String },
}

/// The whole per-file decision: a failed extraction is reported and nothing
/// more happens; otherwise the candidate path decides between a no-op and a
/// rename, and the dry-run flag turns a rename into a report.
pub fn process_decision(
    path: &str,
    extraction: Result<FileMetadata, FileError>,
    slugify: bool,
    dry_run: bool,
) -> (r: Outcome)
    requires
        extraction is Ok ==> spec_extension(path@) is Some,
    ensures
        (extraction matches Err(e) ==> (r matches Outcome::Failed { error } && error == e)),
        (extraction matches Ok(m) ==> {
            let cand = spec_candidate(path@, m.author_seq(), m.title_seq(), slugify);
            &&& (r is NoOp <==> cand == path@)
            &&& (cand != path@ && dry_run ==> (r matches Outcome::DryRun { to } && to@ == cand))
            &&& (cand != path@ && !dry_run ==> (r matches Outcome::Rename { to } && to@ == cand))
        }),
        dry_run ==> !(r is Rename),
        extraction is Err ==> r is Failed,
{
    match extraction {
        Err(e) => Outcome::Failed { error: e },
        Ok(meta) => match plan_rename(path, &meta, slugify) {
            Plan::NoOp => Outcome::NoOp,
            Plan::Rename { to } => if dry_run {
                Outcome::DryRun { to }
            } else {
                Outcome::Rename { to }
            },
        },
    }
}

} // verus!
