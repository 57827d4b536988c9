//! Matching quest names against a user's query, case-insensitively, and
//! listing the names of several matches.

use vstd::prelude::*;
use vstd::string::StringExecFns;

use crate::tarkov::types::Quest;

verus! {

/// What str::to_lowercase returns for a string: a function of its
/// characters alone.
pub uninterp spec fn lower_of(s: Seq<char>) -> Seq<char>;

/// Relies on str::to_lowercase: the lowercased form of a string depends on
/// its characters alone.
#[verifier::external_body]
fn lowercase(s: &str) -> (r: String)
    ensures
        r@ == lower_of(s@),
{
    s.to_lowercase()
}

/// Whether `needle` occurs contiguously inside `hay`.
pub open spec fn contains_seq(hay: Seq<char>, needle: Seq<char>) -> bool {
    exists|k: int|
        0 <= k <= hay.len() - needle.len() && #[trigger] hay.subrange(k, k + needle.len() as int)
            == needle
}

/// Relies on str::contains: true exactly when the pattern occurs as a
/// contiguous substring of the haystack.
#[verifier::external_body]
fn str_contains(hay: &str, needle: &str) -> (r: bool)
    ensures
        r == contains_seq(hay@, needle@),
{
    hay.contains(needle)
}

/// Whether a quest answers the query: its lowercased name contains the
/// lowercased query.
pub open spec fn quest_matches(q: Quest, query: Seq<char>) -> bool {
    contains_seq(lower_of(q.name@), lower_of(query))
}

/// The indices, in order, of exactly the quests that answer the query.
pub fn matching_quests(quests: &Vec<Quest>, name: &str) -> (r: Vec<usize>)
    ensures
        forall|a: int, b: int| 0 <= a < b < r@.len() ==> r@[a] < r@[b],
        forall|a: int|
            0 <= a < r@.len() ==> r@[a] < quests@.len() && quest_matches(
                quests@[r@[a] as int],
                name@,
            ),
        forall|k: int|
            0 <= k < quests@.len() ==> (quest_matches(quests@[k], name@) <==> r@.contains(
                k as usize,
            )),
{
    let needle = lowercase(name);
    let mut r: Vec<usize> = Vec::new();
    let mut i: usize = 0;
    while i < quests.len()
        invariant
            i <= quests@.len(),
            needle@ == lower_of(name@),
            forall|a: int, b: int| 0 <= a < b < r@.len() ==> r@[a] < r@[b],
            forall|a: int|
                0 <= a < r@.len() ==> r@[a] < i && quest_matches(quests@[r@[a] as int], name@),
            forall|k: int|
                0 <= k < i ==> (quest_matches(quests@[k], name@) <==> r@.contains(k as usize)),
        decreases quests@.len() - i,
    {
        let ghost r0 = r@;
        let lowered = lowercase(quests[i].name.as_str());
        if str_contains(lowered.as_str(), needle.as_str()) {
            r.push(i);
            proof {
                assert(r@ == r0.push(i));
                assert(r@[r0.len() as int] == i as usize);
                assert(r@.contains(i as usize));
                assert forall|k: int|
                    0 <= k < i + 1 implies (quest_matches(quests@[k], name@) <==> r@.contains(
                    k as usize,
                )) by {
                    if k < i {
                        if quest_matches(quests@[k], name@) {
                            let a = choose|a: int| 0 <= a < r0.len() && r0[a] == k as usize;
                            assert(r@[a] == k as usize);
                        }
                        if r@.contains(k as usize) {
                            let a = choose|a: int| 0 <= a < r@.len() && r@[a] == k as usize;
                            if a < r0.len() {
                                assert(r0[a] == k as usize);
                                assert(r0.contains(k as usize));
                            }
                        }
                    }
                }
            }
        } else {
            proof {
                assert forall|k: int|
                    0 <= k < i + 1 implies (quest_matches(quests@[k], name@) <==> r@.contains(
                    k as usize,
                )) by {
                    if k == i {
                        if r@.contains(i as usize) {
                            let a = choose|a: int| 0 <= a < r@.len() && r@[a] == i as usize;
                            assert(r@[a] < i);
                        }
                    }
                }
            }
        }
        i += 1;
    }
    r
}

/// The names of the listed quests, one per line: the name at each index in
/// turn, a newline between every two.
pub open spec fn joined_names(quests: Seq<Quest>, idxs: Seq<usize>) -> Seq<char>
    decreases idxs.len(),
{
    if idxs.len() == 0 {
        Seq::<char>::empty()
    } else if idxs.len() == 1 {
        quests[idxs[0] as int].name@
    } else {
        joined_names(quests, idxs.drop_last()) + "\n"@ + quests[idxs.last() as int].name@
    }
}

/// List the names of the quests at `idxs`, newline-separated, as the reply
/// to a query several quests answer shows them.
pub fn quest_name_list(quests: &Vec<Quest>, idxs: &Vec<usize>) -> (r: String)
    requires
        forall|a: int| 0 <= a < idxs@.len() ==> idxs@[a] < quests@.len(),
    ensures
        r@ == joined_names(quests@, idxs@),
{
    let mut out = String::new();
    let mut i: usize = 0;
    while i < idxs.len()
        invariant
            i <= idxs@.len(),
            forall|a: int| 0 <= a < idxs@.len() ==> idxs@[a] < quests@.len(),
            out@ == joined_names(quests@, idxs@.take(i as int)),
        decreases idxs@.len() - i,
    {
        if i > 0 {
            out.append("\n");
        }
        let idx = idxs[i];
        out.append(quests[idx].name.as_str());
        proof {
            assert(idxs@.take(i + 1).drop_last() =~= idxs@.take(i as int));
            assert(out@ =~= joined_names(quests@, idxs@.take(i + 1)));
        }
        i += 1;
    }
    proof {
        assert(idxs@.take(i as int) =~= idxs@);
    }
    out
}

} // verus!
