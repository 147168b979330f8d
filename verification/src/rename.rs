//! Deterministic, collision-safe rename planning. A batch of
//! requests becomes, in order, a batch of final names of the form
//! `{category}-{position}_{fingerprint}.{ext}`, with an explicit
//! collision counter (`_1`, `_2`, ...) inserted before the extension
//! whenever a candidate is already taken: fingerprints are
//! probabilistic, so collision checking still runs.

use vstd::prelude::*;
use vstd::string::StrSliceExecFns;
use vstd::string::StringExecFns;
use crate::text::spec_dec_rep;
use crate::text::lemma_dec_rep_len;
use crate::text::lemma_dec_rep_injective;
use crate::text::push_dec_u64;

verus! {

/// The provisional name stem: category, dash, 1-based batch
/// position, underscore, fingerprint.
pub open spec fn spec_base_name(cat: Seq<char>, pos: int, fp: Seq<char>) -> Seq<char> {
    cat + seq!['-'] + spec_dec_rep(pos) + seq!['_'] + fp
}

/// The `k`-th candidate name: the provisional name for `k == 0`, and
/// the collision-suffixed variants for `k >= 1`.
pub open spec fn spec_candidate(
    cat: Seq<char>,
    pos: int,
    fp: Seq<char>,
    ext: Seq<char>,
    k: int,
) -> Seq<char> {
    if k == 0 {
        spec_base_name(cat, pos, fp) + seq!['.'] + ext
    } else {
        spec_base_name(cat, pos, fp) + seq!['_'] + spec_dec_rep(k) + seq!['.'] + ext
    }
}

/// Distinct collision counters give distinct candidate names.
pub proof fn lemma_candidate_injective(
    cat: Seq<char>,
    pos: int,
    fp: Seq<char>,
    ext: Seq<char>,
    k1: int,
    k2: int,
)
    requires
        0 <= k1 < k2,
    ensures
        spec_candidate(cat, pos, fp, ext, k1) != spec_candidate(cat, pos, fp, ext, k2),
{
    let base = spec_base_name(cat, pos, fp);
    let c1 = spec_candidate(cat, pos, fp, ext, k1);
    let c2 = spec_candidate(cat, pos, fp, ext, k2);
    lemma_dec_rep_len(k2);
    if k1 == 0 {
        assert(c1.len() == base.len() + 1 + ext.len());
        assert(c2.len() == base.len() + 1 + spec_dec_rep(k2).len() + 1 + ext.len());
    } else {
        lemma_dec_rep_len(k1);
        let d1 = spec_dec_rep(k1);
        let d2 = spec_dec_rep(k2);
        if d1.len() != d2.len() {
            assert(c1.len() != c2.len());
        } else if c1 == c2 {
            assert forall|j: int| 0 <= j < d1.len() implies d1[j] == d2[j] by {
                let lhs = base + seq!['_'];
                assert(c1[lhs.len() + j] == d1[j]);
                assert(c2[lhs.len() + j] == d2[j]);
            }
            assert(d1 =~= d2);
            lemma_dec_rep_injective(k1, k2);
        }
    }
}

/// Among any `used.len() + 1` consecutive candidates, at least one
/// is not in `used`.
pub proof fn lemma_free_candidate(
    cat: Seq<char>,
    pos: int,
    fp: Seq<char>,
    ext: Seq<char>,
    used: Seq<Seq<char>>,
    lo: int,
)
    requires
        0 <= lo,
    ensures
        exists|k: int|
            lo <= k <= lo + used.len() && !used.contains(
                #[trigger] spec_candidate(cat, pos, fp, ext, k),
            ),
    decreases used.len(),
{
    let c0 = spec_candidate(cat, pos, fp, ext, lo);
    if used.contains(c0) {
        let j = choose|j: int| 0 <= j < used.len() && used[j] == c0;
        let rest = used.remove(j);
        used.remove_ensures(j);
        lemma_free_candidate(cat, pos, fp, ext, rest, lo + 1);
        let k = choose|k: int|
            lo + 1 <= k <= lo + 1 + rest.len() && !rest.contains(
                #[trigger] spec_candidate(cat, pos, fp, ext, k),
            );
        lemma_candidate_injective(cat, pos, fp, ext, lo, k);
        let ck = spec_candidate(cat, pos, fp, ext, k);
        if used.contains(ck) {
            let i = choose|i: int| 0 <= i < used.len() && used[i] == ck;
            if i < j {
                assert(rest[i] == used[i]);
                assert(rest.contains(ck));
            } else if i > j {
                assert(rest[i - 1] == used[i]);
                assert(rest.contains(ck));
            }
            assert(false);
        }
    }
}

/// The character views of a vector of strings.
pub open spec fn seq_views(v: Seq<String>) -> Seq<Seq<char>> {
    v.map_values(|s: String| s@)
}

/// Whether `s` occurs among the strings of `v`.
pub fn contains_string(v: &Vec<String>, s: &String) -> (r: bool)
    ensures
        r == seq_views(v@).contains(s@),
{
    let mut i: usize = 0;
    while i < v.len()
        invariant
            i <= v@.len(),
            forall|j: int| 0 <= j < i ==> seq_views(v@)[j] != s@,
        decreases v@.len() - i,
    {
        if v[i] == *s {
            proof {
                assert(seq_views(v@)[i as int] == s@);
            }
            return true;
        }
        i = i + 1;
    }
    proof {
        assert(!seq_views(v@).contains(s@));
    }
    false
}

/// Build the `k`-th candidate name.
pub fn build_candidate(cat: &str, pos: u64, fp: &str, ext: &str, k: u64) -> (r: String)
    ensures
        r@ == spec_candidate(cat@, pos as int, fp@, ext@, k as int),
{
    let mut s = String::new();
    s.append(cat);
    s.append("-");
    push_dec_u64(&mut s, pos);
    s.append("_");
    s.append(fp);
    if k > 0 {
        s.append("_");
        push_dec_u64(&mut s, k);
    }
    s.append(".");
    s.append(ext);
    proof {
        reveal_strlit("-");
        reveal_strlit("_");
        reveal_strlit(".");
        assert(s@ =~= spec_candidate(cat@, pos as int, fp@, ext@, k as int));
    }
    s
}

/// Pick the first candidate name that is not yet used: the
/// provisional name when it is free, else the lowest-numbered
/// collision-suffixed variant that is.
pub fn pick_free_name(cat: &str, pos: u64, fp: &str, ext: &str, used: &Vec<String>) -> (r: String)
    requires
        used@.len() < 0xFFFF_FFFF,
    ensures
        !seq_views(used@).contains(r@),
        exists|k: int|
            0 <= k && r@ == #[trigger] spec_candidate(cat@, pos as int, fp@, ext@, k) && (forall|
                k2: int,
            |
                0 <= k2 < k ==> seq_views(used@).contains(
                    #[trigger] spec_candidate(cat@, pos as int, fp@, ext@, k2),
                )),
{
    let n = used.len();
    let mut k: u64 = 0;
    while k <= n as u64
        invariant
            used@.len() == n,
            n < 0xFFFF_FFFF,
            k <= n + 1,
            forall|k2: int|
                0 <= k2 < k ==> seq_views(used@).contains(
                    #[trigger] spec_candidate(cat@, pos as int, fp@, ext@, k2),
                ),
        decreases n + 1 - k,
    {
        let cand = build_candidate(cat, pos, fp, ext, k);
        if !contains_string(used, &cand) {
            return cand;
        }
        k = k + 1;
    }
    proof {
        lemma_free_candidate(cat@, pos as int, fp@, ext@, seq_views(used@), 0);
        assert(false);
    }
    vstd::pervasive::unreached()
}

/// One entry of a rename batch, as the planner sees it: the caller
/// has already probed the filesystem (does the source still exist?)
/// and fingerprinted the unmodified content.
#[derive(Clone, Debug)]
pub struct RenameRequest {
    /// The original path, echoed back in the result.
    pub original: String,
    /// The directory the final name is joined onto.
    pub directory: String,
    /// The category label that leads the new name.
    pub category: String,
    /// The original extension, without the dot.
    pub extension: String,
    /// Whether the source still existed when probed; missing sources
    /// are skipped silently but still consume their batch position.
    pub exists: bool,
    /// The content fingerprint of the unmodified source.
    pub fingerprint: String,
}

/// One planned rename.
#[derive(Clone, Debug)]
pub struct RenameResult {
    pub original: String,
    pub final_path: String,
    pub final_name: String,
}

/// A directory joined to a file name.
pub open spec fn spec_join(dir: Seq<char>, name: Seq<char>) -> Seq<char> {
    if dir.len() == 0 {
        name
    } else {
        dir + seq!['/'] + name
    }
}

pub fn join_path(dir: &str, name: &str) -> (r: String)
    ensures
        r@ == spec_join(dir@, name@),
{
    let mut s = String::new();
    if dir.unicode_len() > 0 {
        s.append(dir);
        s.append("/");
    }
    s.append(name);
    proof {
        reveal_strlit("/");
        assert(s@ =~= spec_join(dir@, name@));
    }
    s
}

/// The candidate names for request `q` at batch position `pos`.
pub open spec fn req_candidate(q: RenameRequest, pos: int, k: int) -> Seq<char> {
    spec_candidate(q.category@, pos, q.fingerprint@, q.extension@, k)
}

/// What a correct plan is. Walking the requests in order from batch
/// position `pos` with the name set `used` already occupied:
/// requests whose source is gone produce nothing but keep their
/// position; every other request contributes the next result, whose
/// name is the lowest free candidate, occupies it, and carries the
/// joined final path.
pub open spec fn plan_ok(
    reqs: Seq<RenameRequest>,
    pos: int,
    used: Seq<Seq<char>>,
    results: Seq<RenameResult>,
) -> bool
    decreases reqs.len(),
{
    if reqs.len() == 0 {
        results.len() == 0
    } else if !reqs[0].exists {
        plan_ok(reqs.drop_first(), pos + 1, used, results)
    } else {
        &&& results.len() >= 1
        &&& results[0].original@ == reqs[0].original@
        &&& !used.contains(results[0].final_name@)
        &&& (exists|k: int|
            0 <= k && results[0].final_name@ == #[trigger] req_candidate(reqs[0], pos, k) && (
            forall|k2: int| 0 <= k2 < k ==> used.contains(#[trigger] req_candidate(reqs[0], pos, k2))))
        &&& results[0].final_path@ == spec_join(reqs[0].directory@, results[0].final_name@)
        &&& plan_ok(
            reqs.drop_first(),
            pos + 1,
            used.push(results[0].final_name@),
            results.drop_first(),
        )
    }
}

/// The originals of the requests whose source still existed, in
/// batch order.
pub open spec fn originals_of_existing(reqs: Seq<RenameRequest>) -> Seq<Seq<char>>
    decreases reqs.len(),
{
    if reqs.len() == 0 {
        Seq::empty()
    } else if reqs[0].exists {
        seq![reqs[0].original@] + originals_of_existing(reqs.drop_first())
    } else {
        originals_of_existing(reqs.drop_first())
    }
}

/// The originals a plan echoes back, in order.
pub open spec fn plan_originals(results: Seq<RenameResult>) -> Seq<Seq<char>> {
    results.map_values(|r: RenameResult| r.original@)
}

/// Law: a correct plan is collision-free and order-preserving. All
/// final names are pairwise distinct, none collides with a name that
/// already existed, and the echoed originals are exactly the
/// existing requests' originals in batch order.
pub proof fn lemma_plan_collision_free(
    reqs: Seq<RenameRequest>,
    pos: int,
    used: Seq<Seq<char>>,
    results: Seq<RenameResult>,
)
    requires
        plan_ok(reqs, pos, used, results),
    ensures
        forall|a: int, b: int|
            0 <= a < b < results.len() ==> results[a].final_name@ != results[b].final_name@,
        forall|a: int|
            0 <= a < results.len() ==> !used.contains(#[trigger] results[a].final_name@),
        plan_originals(results) == originals_of_existing(reqs),
    decreases reqs.len(),
{
    if reqs.len() == 0 {
        assert(plan_originals(results) =~= originals_of_existing(reqs));
    } else if !reqs[0].exists {
        lemma_plan_collision_free(reqs.drop_first(), pos + 1, used, results);
    } else {
        let name0 = results[0].final_name@;
        let used1 = used.push(name0);
        let tail = results.drop_first();
        lemma_plan_collision_free(reqs.drop_first(), pos + 1, used1, tail);
        assert forall|a: int, b: int|
            0 <= a < b < results.len() implies results[a].final_name@
            != results[b].final_name@ by {
            if a == 0 {
                assert(results[b] == tail[b - 1]);
                assert(!used1.contains(tail[b - 1].final_name@));
                assert(used1[used.len() as int] == name0);
                if results[b].final_name@ == name0 {
                    assert(used1.contains(results[b].final_name@));
                }
            } else {
                assert(results[a] == tail[a - 1]);
                assert(results[b] == tail[b - 1]);
            }
        }
        assert forall|a: int| 0 <= a < results.len() implies !used.contains(
            #[trigger] results[a].final_name@,
        ) by {
            if a > 0 {
                assert(results[a] == tail[a - 1]);
                assert(!used1.contains(tail[a - 1].final_name@));
                if used.contains(results[a].final_name@) {
                    let j = choose|j: int|
                        0 <= j < used.len() && used[j] == results[a].final_name@;
                    assert(used1[j] == used[j]);
                    assert(used1.contains(results[a].final_name@));
                }
            }
        }
        assert(plan_originals(results) =~= seq![results[0].original@] + plan_originals(tail));
        assert(plan_originals(results) =~= originals_of_existing(reqs));
    }
}

/// Plan a whole batch. `taken` is the set of names already present
/// in the target directory; positions are 1-based over all requests,
/// skipped ones included. Pure: the caller performs the moves.
pub fn plan_rename_batch(requests: &Vec<RenameRequest>, taken: &Vec<String>) -> (results: Vec<
    RenameResult,
>)
    requires
        requests@.len() + taken@.len() < 0xFFFF_FFFF,
    ensures
        plan_ok(requests@, 1, seq_views(taken@), results@),
{
    let mut used: Vec<String> = Vec::new();
    let mut t: usize = 0;
    while t < taken.len()
        invariant
            t <= taken@.len(),
            used@.len() == t,
            forall|j: int| 0 <= j < t ==> used@[j] == taken@[j],
        decreases taken@.len() - t,
    {
        used.push(taken[t].clone());
        t = t + 1;
    }
    proof {
        assert(used@ =~= taken@);
    }

    let mut results: Vec<RenameResult> = Vec::new();
    let ghost taken_views = seq_views(taken@);
    proof {
        assert(requests@.skip(0) =~= requests@);
        assert forall|rest: Seq<RenameResult>|
            plan_ok(requests@.skip(0), 1, seq_views(used@), rest) implies #[trigger] plan_ok(
            requests@,
            1,
            taken_views,
            results@ + rest,
        ) by {
            assert(results@ + rest =~= rest);
        }
    }
    let mut i: usize = 0;
    while i < requests.len()
        invariant
            i <= requests@.len(),
            requests@.len() + taken@.len() < 0xFFFF_FFFF,
            used@.len() <= taken@.len() + i,
            taken_views == seq_views(taken@),
            forall|rest: Seq<RenameResult>|
                plan_ok(requests@.skip(i as int), i + 1, seq_views(used@), rest) ==> #[trigger] plan_ok(
                    requests@,
                    1,
                    taken_views,
                    results@ + rest,
                ),
        decreases requests@.len() - i,
    {
        let ghost used0 = used@;
        let ghost results0 = results@;
        let q = &requests[i];
        if q.exists {
            let pos = (i as u64) + 1;
            let name = pick_free_name(
                q.category.as_str(),
                pos,
                q.fingerprint.as_str(),
                q.extension.as_str(),
                &used,
            );
            let path = join_path(q.directory.as_str(), name.as_str());
            let res = RenameResult {
                original: q.original.clone(),
                final_path: path,
                final_name: name.clone(),
            };
            let ghost res0 = res;
            results.push(res);
            used.push(name);
            proof {
                let reqs_i = requests@.skip(i as int);
                assert(seq_views(used@) =~= seq_views(used0).push(res0.final_name@));
                assert forall|rest: Seq<RenameResult>|
                    plan_ok(
                        requests@.skip(i + 1),
                        i + 2,
                        seq_views(used@),
                        rest,
                    ) implies #[trigger] plan_ok(
                    requests@,
                    1,
                    taken_views,
                    results@ + rest,
                ) by {
                    let rest1 = seq![res0] + rest;
                    assert(reqs_i[0] == requests@[i as int]);
                    assert(reqs_i.drop_first() =~= requests@.skip(i + 1));
                    assert(rest1.drop_first() =~= rest);
                    assert(rest1[0] == res0);
                    let kk = choose|k: int|
                        0 <= k && res0.final_name@ == #[trigger] spec_candidate(
                            requests@[i as int].category@,
                            i + 1,
                            requests@[i as int].fingerprint@,
                            requests@[i as int].extension@,
                            k,
                        ) && (forall|k2: int|
                            0 <= k2 < k ==> seq_views(used0).contains(
                                #[trigger] spec_candidate(
                                    requests@[i as int].category@,
                                    i + 1,
                                    requests@[i as int].fingerprint@,
                                    requests@[i as int].extension@,
                                    k2,
                                ),
                            ));
                    assert(res0.final_name@ == req_candidate(reqs_i[0], i + 1, kk));
                    assert forall|k2: int| 0 <= k2 < kk implies seq_views(used0).contains(
                        #[trigger] req_candidate(reqs_i[0], i + 1, k2),
                    ) by {
                        assert(seq_views(used0).contains(
                            spec_candidate(
                                requests@[i as int].category@,
                                i + 1,
                                requests@[i as int].fingerprint@,
                                requests@[i as int].extension@,
                                k2,
                            ),
                        ));
                    }
                    assert(exists|k: int|
                        0 <= k && rest1[0].final_name@ == #[trigger] req_candidate(
                            reqs_i[0],
                            i + 1,
                            k,
                        ) && (forall|k2: int|
                            0 <= k2 < k ==> seq_views(used0).contains(
                                #[trigger] req_candidate(reqs_i[0], i + 1, k2),
                            )));
                    assert(plan_ok(
                        reqs_i.drop_first(),
                        i + 2,
                        seq_views(used0).push(rest1[0].final_name@),
                        rest1.drop_first(),
                    ));
                    assert(plan_ok(reqs_i, i + 1, seq_views(used0), rest1));
                    assert(plan_ok(requests@, 1, taken_views, results0 + rest1));
                    assert(results0 + rest1 =~= results@ + rest);
                }
            }
        } else {
            proof {
                assert forall|rest: Seq<RenameResult>|
                    plan_ok(
                        requests@.skip(i + 1),
                        i + 2,
                        seq_views(used@),
                        rest,
                    ) implies #[trigger] plan_ok(
                    requests@,
                    1,
                    taken_views,
                    results@ + rest,
                ) by {
                    assert(requests@.skip(i as int)[0] == requests@[i as int]);
                    assert(requests@.skip(i as int).drop_first() =~= requests@.skip(i + 1));
                    assert(plan_ok(requests@.skip(i as int), i + 1, seq_views(used@), rest));
                }
            }
        }
        i = i + 1;
    }
    proof {
        assert(requests@.skip(i as int) =~= Seq::<RenameRequest>::empty());
        assert(plan_ok(
            requests@.skip(i as int),
            i + 1,
            seq_views(used@),
            Seq::<RenameResult>::empty(),
        ));
        assert(plan_ok(requests@, 1, taken_views, results@ + Seq::<RenameResult>::empty()));
        assert(results@ + Seq::<RenameResult>::empty() =~= results@);
    }
    results
}

} // verus!
