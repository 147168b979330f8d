//! Names for replicating one image into a numbered set of copies:
//! `{stem}-{i}-{total}.{ext}` for each copy index `i` from 1 to the
//! total. Replication into one or zero copies produces nothing.

use vstd::prelude::*;
use vstd::string::StringExecFns;
use crate::text::spec_dec_rep;
use crate::text::push_dec_u64;

verus! {

/// The name of copy `i` of `total`.
pub open spec fn spec_replica_name(stem: Seq<char>, i: int, total: int, ext: Seq<char>) -> Seq<
    char,
> {
    stem + seq!['-'] + spec_dec_rep(i) + seq!['-'] + spec_dec_rep(total) + seq!['.'] + ext
}

/// Build the name of copy `i` of `total`.
pub fn replica_name(stem: &str, i: u64, total: u64, ext: &str) -> (r: String)
    ensures
        r@ == spec_replica_name(stem@, i as int, total as int, ext@),
{
    let mut s = String::new();
    s.append(stem);
    s.append("-");
    push_dec_u64(&mut s, i);
    s.append("-");
    push_dec_u64(&mut s, total);
    s.append(".");
    s.append(ext);
    proof {
        reveal_strlit("-");
        reveal_strlit(".");
        assert(s@ =~= spec_replica_name(stem@, i as int, total as int, ext@));
    }
    s
}

/// The names a replication produces: one per copy, in copy order,
/// none when fewer than two copies are asked for.
pub fn replica_names(stem: &str, total: u64, ext: &str) -> (r: Vec<String>)
    requires
        total <= 0xFFFF_FFFF,
    ensures
        total <= 1 ==> r@.len() == 0,
        total > 1 ==> r@.len() == total,
        forall|i: int|
            0 <= i < r@.len() ==> r@[i]@ == spec_replica_name(stem@, i + 1, total as int, ext@),
{
    let mut out: Vec<String> = Vec::new();
    if total <= 1 {
        return out;
    }
    let mut i: u64 = 1;
    while i <= total
        invariant
            1 <= i <= total + 1,
            1 < total <= 0xFFFF_FFFF,
            out@.len() == i - 1,
            forall|j: int|
                0 <= j < out@.len() ==> out@[j]@ == spec_replica_name(
                    stem@,
                    j + 1,
                    total as int,
                    ext@,
                ),
        decreases total + 1 - i,
    {
        let name = replica_name(stem, i, total, ext);
        out.push(name);
        i = i + 1;
    }
    out
}

} // verus!
