//! Path manipulation over plain character strings: directory/file-name
//! splitting, stem and extension splitting, joining, and the names the
//! pipeline derives for output files and rename candidates.
//!
//! Paths are strings whose components are separated by `/`.

use vstd::prelude::*;
use crate::config::OutputFormat;
use crate::strnum::{dec_str, u32_to_string};

verus! {

/// The position of the last occurrence of `c` in `s`, or `-1` when `c` does
/// not occur.
pub open spec fn last_index_of(s: Seq<char>, c: char) -> int
    decreases s.len(),
{
    if s.len() == 0 {
        -1
    } else if s[s.len() - 1] == c {
        s.len() - 1
    } else {
        last_index_of(s.drop_last(), c)
    }
}

/// `last_index_of` names a position of `c` after which `c` never occurs
/// again, or `-1` exactly when `c` does not occur at all.
pub proof fn lemma_last_index_of(s: Seq<char>, c: char)
    ensures
        -1 <= last_index_of(s, c) < s.len(),
        last_index_of(s, c) >= 0 ==> s[last_index_of(s, c)] == c,
        forall|j: int| last_index_of(s, c) < j < s.len() ==> s[j] != c,
    decreases s.len(),
{
    if s.len() == 0 {
    } else if s[s.len() - 1] == c {
    } else {
        lemma_last_index_of(s.drop_last(), c);
        assert(forall|j: int| 0 <= j < s.len() - 1 ==> s[j] == s.drop_last()[j]);
    }
}

/// Finds the last occurrence of `c` in `s`.
pub fn find_last(s: &str, c: char) -> (r: Option<usize>)
    ensures
        r matches Some(i) ==> last_index_of(s@, c) == i,
        r is None ==> last_index_of(s@, c) == -1,
{
    proof {
        lemma_last_index_of(s@, c);
    }
    let n: usize = s.unicode_len();
    let mut i: usize = n;
    while i > 0
        invariant
            i <= n,
            n == s@.len(),
            forall|j: int| i <= j < n ==> s@[j] != c,
        decreases i,
    {
        i = i - 1;
        if s.get_char(i) == c {
            proof {
                lemma_last_index_of(s@, c);
                let li = last_index_of(s@, c);
                if li < i {
                    assert(s@[i as int] != c);
                } else if li > i {
                    assert(s@[li] != c);
                    assert(s@[li] == c);
                }
            }
            return Some(i);
        }
    }
    None
}

/// Everything before the last `/`, or the empty string when there is none.
pub open spec fn parent_of(p: Seq<char>) -> Seq<char> {
    let li = last_index_of(p, '/');
    if li < 0 {
        Seq::empty()
    } else {
        p.subrange(0, li)
    }
}

/// Everything after the last `/`; the whole string when there is none.
pub open spec fn file_name_of(p: Seq<char>) -> Seq<char> {
    p.subrange(last_index_of(p, '/') + 1, p.len() as int)
}

/// Splits a path into its directory part and its file name.
pub fn split_dir_name(p: &str) -> (r: (String, String))
    ensures
        r.0@ == parent_of(p@),
        r.1@ == file_name_of(p@),
{
    proof {
        lemma_last_index_of(p@, '/');
    }
    let n: usize = p.unicode_len();
    match find_last(p, '/') {
        Some(i) => (
            String::from_str(p.substring_char(0, i)),
            String::from_str(p.substring_char(i + 1, n)),
        ),
        None => (String::new(), String::from_str(p)),
    }
}

/// The file name without its extension: the part before the last `.`, unless
/// the `.` is missing or leads the name, in which case the whole name.
pub open spec fn stem_of(name: Seq<char>) -> Seq<char> {
    if last_index_of(name, '.') > 0 {
        name.subrange(0, last_index_of(name, '.'))
    } else {
        name
    }
}

/// The extension: the part after the last `.`, provided that `.` is neither
/// missing nor the leading character.
pub open spec fn ext_of(name: Seq<char>) -> Option<Seq<char>> {
    if last_index_of(name, '.') > 0 {
        Some(name.subrange(last_index_of(name, '.') + 1, name.len() as int))
    } else {
        None
    }
}

/// Splits a file name into stem and extension.
pub fn split_stem_ext(name: &str) -> (r: (String, Option<String>))
    ensures
        r.0@ == stem_of(name@),
        ext_of(name@) matches Some(v) ==> (r.1 matches Some(e) && e@ == v),
        ext_of(name@) is None ==> r.1 is None,
{
    proof {
        lemma_last_index_of(name@, '.');
    }
    let n: usize = name.unicode_len();
    match find_last(name, '.') {
        Some(i) if i > 0 => (
            String::from_str(name.substring_char(0, i)),
            Some(String::from_str(name.substring_char(i + 1, n))),
        ),
        _ => (String::from_str(name), None),
    }
}

/// Joins a directory and a name with `/`; an empty directory vanishes.
pub open spec fn join_path(a: Seq<char>, b: Seq<char>) -> Seq<char> {
    if a.len() == 0 {
        b
    } else {
        a + seq!['/'] + b
    }
}

/// Joins a directory and a name.
pub fn join_path_exec(a: &str, b: &str) -> (r: String)
    ensures
        r@ == join_path(a@, b@),
{
    if a.unicode_len() == 0 {
        String::from_str(b)
    } else {
        let mut s = String::from_str(a);
        s.append("/");
        s.append(b);
        proof {
            reveal_strlit("/");
            assert("/"@ =~= seq!['/']);
            assert(s@ =~= join_path(a@, b@));
        }
        s
    }
}

/// The file extension this library writes for each output format.
pub open spec fn format_ext_spec(f: OutputFormat) -> Seq<char> {
    match f {
        OutputFormat::Png => "png"@,
        OutputFormat::Jpeg => "jpg"@,
        OutputFormat::WebP => "webp"@,
    }
}

/// The file extension written for `f`.
pub fn format_ext(f: &OutputFormat) -> (r: &'static str)
    ensures
        r@ == format_ext_spec(*f),
{
    match f {
        OutputFormat::Png => "png",
        OutputFormat::Jpeg => "jpg",
        OutputFormat::WebP => "webp",
    }
}

/// The output file name derived from an input path: the input's stem (or
/// `output` when the path has no file name), then `_optimized.`, then the
/// format's extension.
pub open spec fn output_file_name_spec(input: Seq<char>, f: OutputFormat) -> Seq<char> {
    let name = file_name_of(input);
    let stem = if name.len() == 0 {
        "output"@
    } else {
        stem_of(name)
    };
    stem + "_optimized."@ + format_ext_spec(f)
}

/// Derives the output file name for an input path and output format.
pub fn output_file_name(input_path: &str, f: &OutputFormat) -> (r: String)
    ensures
        r@ == output_file_name_spec(input_path@, *f),
{
    let (_dir, name) = split_dir_name(input_path);
    let mut s: String;
    if name.unicode_len() == 0 {
        s = String::from_str("output");
    } else {
        let (stem, _e) = split_stem_ext(name.as_str());
        s = stem;
    }
    s.append("_optimized.");
    s.append(format_ext(f));
    proof {
        assert(s@ =~= output_file_name_spec(input_path@, *f));
    }
    s
}

/// Whether `p` lies strictly under the directory `base`: `base` is a proper
/// prefix followed by a separator.
pub open spec fn is_under(base: Seq<char>, p: Seq<char>) -> bool {
    p.len() > base.len() && p.subrange(0, base.len() as int) == base && p[base.len() as int] == '/'
}

/// Checks whether `p` lies strictly under the directory `base`.
pub fn starts_with_dir(p: &str, base: &str) -> (r: bool)
    ensures
        r == is_under(base@, p@),
{
    let bn: usize = base.unicode_len();
    let pn: usize = p.unicode_len();
    if pn <= bn {
        return false;
    }
    if p.get_char(bn) != '/' {
        return false;
    }
    let mut i: usize = 0;
    while i < bn
        invariant
            i <= bn,
            bn == base@.len(),
            pn == p@.len(),
            pn > bn,
            forall|j: int| 0 <= j < i ==> p@[j] == base@[j],
        decreases bn - i,
    {
        if p.get_char(i) != base.get_char(i) {
            proof {
                assert(p@.subrange(0, bn as int)[i as int] == p@[i as int]);
            }
            return false;
        }
        i = i + 1;
    }
    proof {
        assert(p@.subrange(0, bn as int) =~= base@);
    }
    true
}

/// The candidate path the rename policy builds for counter `n`: the stem
/// gains the suffix `_(n)` and the extension is kept (a dot only where the
/// extension is nonempty).
pub open spec fn rename_candidate(base: Seq<char>, n: nat) -> Seq<char> {
    let parent = parent_of(base);
    let name = file_name_of(base);
    let stem = stem_of(name);
    let ext = name.subrange(last_index_of(name, '.') + 1, name.len() as int);
    let tail = if ext.len() == 0 {
        Seq::<char>::empty()
    } else {
        "."@ + ext
    };
    join_path(parent, stem + "_("@ + dec_str(n) + ")"@ + tail)
}

/// Builds the rename candidate for counter `n` from pre-split parts.
pub fn build_candidate(parent: &str, stem: &str, ext: &str, n: u32) -> (r: String)
    ensures
        r@ == join_path(
            parent@,
            stem@ + "_("@ + dec_str(n as nat) + ")"@ + (if ext@.len() == 0 {
                Seq::<char>::empty()
            } else {
                "."@ + ext@
            }),
        ),
{
    let mut name = String::from_str(stem);
    name.append("_(");
    let num = u32_to_string(n);
    name.append(num.as_str());
    name.append(")");
    if ext.unicode_len() > 0 {
        name.append(".");
        name.append(ext);
    }
    let r = join_path_exec(parent, name.as_str());
    proof {
        assert(name@ =~= stem@ + "_("@ + dec_str(n as nat) + ")"@ + (if ext@.len() == 0 {
            Seq::<char>::empty()
        } else {
            "."@ + ext@
        }));
    }
    r
}

} // verus!
