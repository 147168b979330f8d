//! Splitting a file name into stem and extension at the last dot,
//! and the sibling temporary name used for atomic in-place
//! replacement.

use vstd::prelude::*;
use vstd::string::StrSliceExecFns;
use vstd::string::StringExecFns;

verus! {

/// Index of the last dot of `s`, or -1 when there is none.
pub open spec fn last_dot(s: Seq<char>) -> int
    decreases s.len(),
{
    if s.len() == 0 {
        -1
    } else if s[s.len() - 1] == '.' {
        s.len() - 1
    } else {
        last_dot(s.drop_last())
    }
}

proof fn lemma_last_dot_range(s: Seq<char>)
    ensures
        -1 <= last_dot(s) < s.len(),
    decreases s.len(),
{
    if s.len() > 0 && s[s.len() - 1] != '.' {
        lemma_last_dot_range(s.drop_last());
    }
}

/// The stem of a file name: everything before the last dot, or the
/// whole name when there is no usable dot. A dot in first position
/// (a hidden file) does not start an extension.
pub open spec fn spec_stem(s: Seq<char>) -> Seq<char> {
    let d = last_dot(s);
    if d <= 0 {
        s
    } else {
        s.take(d)
    }
}

/// The extension of a file name: everything after the last dot,
/// empty when there is no usable dot.
pub open spec fn spec_extension(s: Seq<char>) -> Seq<char> {
    let d = last_dot(s);
    if d <= 0 {
        Seq::empty()
    } else {
        s.skip(d + 1)
    }
}

/// Find the last dot of a file name.
fn rfind_dot(name: &str) -> (r: Option<usize>)
    ensures
        match r {
            Some(d) => last_dot(name@) == d,
            None => last_dot(name@) == -1,
        },
{
    let n = name.unicode_len();
    proof {
        assert(name@.take(n as int) =~= name@);
    }
    let mut i: usize = n;
    while i > 0
        invariant
            0 <= i <= n,
            n == name@.len(),
            last_dot(name@) == last_dot(name@.take(i as int)),
        decreases i,
    {
        proof {
            assert(name@.take(i as int).drop_last() =~= name@.take(i - 1));
            assert(name@.take(i as int)[i - 1] == name@[i - 1]);
        }
        if name.get_char(i - 1) == '.' {
            return Some(i - 1);
        }
        i = i - 1;
    }
    proof {
        assert(name@.take(0) =~= Seq::<char>::empty());
    }
    None
}

/// Split a file name into stem and extension at its last dot.
pub fn split_extension(name: &str) -> (r: (String, String))
    ensures
        r.0@ == spec_stem(name@),
        r.1@ == spec_extension(name@),
{
    proof {
        lemma_last_dot_range(name@);
    }
    let n = name.unicode_len();
    let d = rfind_dot(name);
    match d {
        Some(p) if p > 0 => {
            let stem = name.substring_char(0, p);
            let ext = name.substring_char(p + 1, n);
            proof {
                assert(name@.subrange(0, p as int) =~= spec_stem(name@));
                assert(name@.subrange(p + 1, n as int) =~= spec_extension(name@));
            }
            (String::from_str(stem), String::from_str(ext))
        },
        _ => {
            let stem = name.substring_char(0, n);
            proof {
                assert(name@.subrange(0, n as int) =~= name@);
                assert(spec_extension(name@) =~= Seq::<char>::empty());
            }
            (String::from_str(stem), String::new())
        },
    }
}

/// The sibling temporary name an in-place transform writes to before
/// renaming over the original: `{stem}_temp.{ext}`.
pub open spec fn spec_temp_name(stem: Seq<char>, ext: Seq<char>) -> Seq<char> {
    stem + "_temp."@ + ext
}

/// Build the sibling temporary name.
pub fn temp_name(stem: &str, ext: &str) -> (r: String)
    ensures
        r@ == spec_temp_name(stem@, ext@),
{
    let mut s = String::new();
    s.append(stem);
    s.append("_temp.");
    s.append(ext);
    proof {
        assert(s@ =~= spec_temp_name(stem@, ext@));
    }
    s
}

} // verus!
