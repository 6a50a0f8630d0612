//! The artifact classifier: decides from a file name and a file-type flag
//! whether an entry is a disposable LaTeX build product.

use vstd::prelude::*;

verus! {

/// Index of the dot that separates a file name's stem from its extension:
/// the greatest `i` with `1 <= i < name.len()` and `name[i] == '.'`, or `-1`
/// when there is none. A dot at index 0 (a hidden file such as `.gitignore`)
/// does not begin an extension.
pub open spec fn last_dot(name: Seq<char>) -> int
    decreases name.len(),
{
    if name.len() == 0 {
        -1
    } else if name.last() == '.' && name.len() >= 2 {
        name.len() - 1
    } else {
        last_dot(name.drop_last())
    }
}

/// The extension of a file name: what follows the separating dot, or `None`
/// when the name has no such dot.
pub open spec fn ext_of(name: Seq<char>) -> Option<Seq<char>> {
    if last_dot(name) >= 1 {
        Some(name.subrange(last_dot(name) + 1, name.len() as int))
    } else {
        None
    }
}

/// The stem of a file name: what precedes the separating dot, or the whole
/// name when there is no extension.
pub open spec fn stem_of(name: Seq<char>) -> Seq<char> {
    if last_dot(name) >= 1 {
        name.subrange(0, last_dot(name))
    } else {
        name
    }
}

proof fn lemma_last_dot_found(name: Seq<char>, i: int)
    requires
        1 <= i < name.len(),
        name[i] == '.',
        forall|j: int| i < j < name.len() ==> name[j] != '.',
    ensures
        last_dot(name) == i,
    decreases name.len(),
{
    if i < name.len() - 1 {
        lemma_last_dot_found(name.drop_last(), i);
    }
}

proof fn lemma_last_dot_none(name: Seq<char>)
    requires
        forall|j: int| 1 <= j < name.len() ==> name[j] != '.',
    ensures
        last_dot(name) == -1,
    decreases name.len(),
{
    if name.len() != 0 {
        lemma_last_dot_none(name.drop_last());
    }
}

/// The characters of a string, as an indexable vector.
fn chars_of(s: &str) -> (v: Vec<char>)
    ensures
        v@ == s@,
{
    let mut v: Vec<char> = Vec::new();
    for c in it: s.chars()
        invariant
            it.seq() == s@,
            v@ == it.seq().take(it.index()),
    {
        v.push(c);
    }
    v
}

/// The position of the extension-separating dot of the name held in `cs`,
/// if the name has one.
fn find_last_dot(cs: &Vec<char>) -> (d: Option<usize>)
    ensures
        match d {
            Some(i) => 1 <= i < cs@.len() && last_dot(cs@) == i,
            None => last_dot(cs@) == -1,
        },
{
    let mut j: usize = cs.len();
    while j > 0
        invariant
            j <= cs@.len(),
            forall|k: int| j <= k < cs@.len() && k >= 1 ==> cs@[k] != '.',
        decreases j,
    {
        j = j - 1;
        if j >= 1 && cs[j] == '.' {
            proof {
                lemma_last_dot_found(cs@, j as int);
            }
            return Some(j);
        }
    }
    proof {
        lemma_last_dot_none(cs@);
    }
    None
}

/// The extensions whose files LaTeX tooling writes and may be thrown away.
pub open spec fn listed_extension(e: Seq<char>) -> bool {
    ||| e == "aux"@
    ||| e == "bbl"@
    ||| e == "blg"@
    ||| e == "log"@
    ||| e == "out"@
    ||| e == "toc"@
    ||| e == "fdb_latexmk"@
    ||| e == "soc"@
}

/// The name's extension is one of the listed artifact extensions.
pub open spec fn extension_rule(name: Seq<char>) -> bool {
    ext_of(name) matches Some(e) && listed_extension(e)
}

/// The name's stem begins with the prefix that `latexindent` gives its
/// scratch files.
pub open spec fn stem_rule(name: Seq<char>) -> bool {
    "__latexindent"@.is_prefix_of(stem_of(name))
}

/// The name carries one of the two compound artifact suffixes.
pub open spec fn suffix_rule(name: Seq<char>) -> bool {
    ".run.xml"@.is_suffix_of(name) || ".synctex.gz"@.is_suffix_of(name)
}

/// A name is an artifact name when any one of the three rules accepts it.
pub open spec fn artifact_name(name: Seq<char>) -> bool {
    extension_rule(name) || stem_rule(name) || suffix_rule(name)
}

/// An entry is a deletable LaTeX artifact exactly when it is a regular file
/// and its name is an artifact name. Directories are never artifacts.
pub open spec fn spec_is_artifact(name: Seq<char>, is_regular_file: bool) -> bool {
    is_regular_file && artifact_name(name)
}

/// Whether `cs[from..to]` spells exactly the characters of `pat`.
fn range_matches(cs: &Vec<char>, from: usize, to: usize, pat: &str) -> (r: bool)
    requires
        from <= to <= cs@.len(),
    ensures
        r == (cs@.subrange(from as int, to as int) == pat@),
{
    let p = chars_of(pat);
    if to - from != p.len() {
        proof {
            assert(cs@.subrange(from as int, to as int).len() != pat@.len());
        }
        return false;
    }
    let mut k: usize = 0;
    while k < p.len()
        invariant
            k <= p@.len(),
            p@ == pat@,
            from <= to <= cs@.len(),
            to - from == p@.len(),
            forall|m: int| 0 <= m < k ==> cs@[from + m] == p@[m],
        decreases p@.len() - k,
    {
        if cs[from + k] != p[k] {
            proof {
                assert(cs@.subrange(from as int, to as int)[k as int] != pat@[k as int]);
            }
            return false;
        }
        k = k + 1;
    }
    proof {
        assert(cs@.subrange(from as int, to as int) =~= pat@);
    }
    true
}

/// Whether `pat` is a prefix of the first `upto` characters of `cs`.
fn prefix_matches(cs: &Vec<char>, upto: usize, pat: &str) -> (r: bool)
    requires
        upto <= cs@.len(),
    ensures
        r == pat@.is_prefix_of(cs@.subrange(0, upto as int)),
{
    let p = chars_of(pat);
    if p.len() > upto {
        return false;
    }
    let r = range_matches(cs, 0, p.len(), pat);
    proof {
        assert(cs@.subrange(0, upto as int).subrange(0, pat@.len() as int) =~= cs@.subrange(
            0,
            pat@.len() as int,
        ));
    }
    r
}

/// Whether the characters of `cs` end in `pat`.
fn suffix_matches(cs: &Vec<char>, pat: &str) -> (r: bool)
    ensures
        r == pat@.is_suffix_of(cs@),
{
    let p = chars_of(pat);
    if p.len() > cs.len() {
        return false;
    }
    let r = range_matches(cs, cs.len() - p.len(), cs.len(), pat);
    proof {
        assert(cs@.subrange(cs@.len() - pat@.len(), cs@.len() as int) == cs@.subrange(
            (cs@.len() - pat@.len()) as int,
            cs@.len() as int,
        ));
    }
    r
}

/// Decides whether a directory entry is a deletable LaTeX build artifact.
///
/// `name` is the entry's file name (its final path component) and
/// `is_regular_file` says whether the entry is a regular file rather than a
/// directory or other special entry. The decision looks at nothing else: no
/// file content, no metadata.
pub fn is_latex_artifact(name: &str, is_regular_file: bool) -> (r: bool)
    ensures
        r == spec_is_artifact(name@, is_regular_file),
{
    if !is_regular_file {
        return false;
    }
    let cs = chars_of(name);
    let d = find_last_dot(&cs);
    let ext_ok = match d {
        Some(i) => {
            range_matches(&cs, i + 1, cs.len(), "aux") || range_matches(&cs, i + 1, cs.len(), "bbl")
                || range_matches(&cs, i + 1, cs.len(), "blg") || range_matches(
                &cs,
                i + 1,
                cs.len(),
                "log",
            ) || range_matches(&cs, i + 1, cs.len(), "out") || range_matches(
                &cs,
                i + 1,
                cs.len(),
                "toc",
            ) || range_matches(&cs, i + 1, cs.len(), "fdb_latexmk") || range_matches(
                &cs,
                i + 1,
                cs.len(),
                "soc",
            )
        },
        None => false,
    };
    let stem_end = match d {
        Some(i) => i,
        None => cs.len(),
    };
    let stem_ok = prefix_matches(&cs, stem_end, "__latexindent");
    let suffix_ok = suffix_matches(&cs, ".run.xml") || suffix_matches(&cs, ".synctex.gz");
    proof {
        assert(ext_ok == extension_rule(name@));
        if d is None {
            assert(cs@.subrange(0, cs@.len() as int) =~= cs@);
        }
        assert(stem_ok == stem_rule(name@));
    }
    ext_ok || stem_ok || suffix_ok
}

/// A regular file whose extension is one of the listed artifact extensions
/// is an artifact; a directory of the same name is not.
pub proof fn lemma_listed_extension_classifies(name: Seq<char>)
    requires
        extension_rule(name),
    ensures
        spec_is_artifact(name, true),
        !spec_is_artifact(name, false),
{
}

/// A file whose stem begins with `__latexindent` is an artifact, whatever
/// its extension.
pub proof fn lemma_latexindent_stem_classifies(name: Seq<char>)
    requires
        "__latexindent"@.is_prefix_of(stem_of(name)),
    ensures
        spec_is_artifact(name, true),
{
}

/// A file whose name ends in `.run.xml` or `.synctex.gz` is an artifact.
pub proof fn lemma_compound_suffix_classifies(name: Seq<char>)
    requires
        ".run.xml"@.is_suffix_of(name) || ".synctex.gz"@.is_suffix_of(name),
    ensures
        spec_is_artifact(name, true),
{
}

/// An entry whose name none of the three rules accepts is never an
/// artifact, whether it is a regular file or not.
pub proof fn lemma_unmatched_name_is_kept(name: Seq<char>, is_regular_file: bool)
    requires
        !extension_rule(name),
        !stem_rule(name),
        !suffix_rule(name),
    ensures
        !spec_is_artifact(name, is_regular_file),
{
}

} // verus!
