use vstd::multiset::Multiset;
use vstd::prelude::*;

verus! {

/// One line of the results: an entry and the votes it received.
#[derive(Debug, Clone, Copy, PartialEq, Eq, Structural)]
pub struct TallyRow {
    pub id: i32,
    pub vote_count: u64,
}

/// `a` is listed before `b`: more votes, or as many votes and an older entry.
pub open spec fn ranks_before(a: TallyRow, b: TallyRow) -> bool {
    a.vote_count > b.vote_count || (a.vote_count == b.vote_count && a.id < b.id)
}

/// No row is listed after one that ranks below it.
pub open spec fn is_ranked(rows: Seq<TallyRow>) -> bool {
    forall|i: int, j: int| 0 <= i < j < rows.len() ==> !ranks_before(#[trigger] rows[j], #[trigger] rows[i])
}

fn row_ranks_before(a: TallyRow, b: TallyRow) -> (r: bool)
    ensures
        r == ranks_before(a, b),
{
    a.vote_count > b.vote_count || (a.vote_count == b.vote_count && a.id < b.id)
}

/// Orders rows by descending vote count, ties by ascending id.
pub fn rank_by_votes(rows: Vec<TallyRow>) -> (r: Vec<TallyRow>)
    ensures
        r@.to_multiset() == rows@.to_multiset(),
        is_ranked(r@),
{
    broadcast use vstd::seq_lib::group_to_multiset_ensures;

    let ghost all = rows@;
    let mut rest = rows;
    let mut out: Vec<TallyRow> = Vec::new();
    while rest.len() > 0
        invariant
            out@.to_multiset().add(rest@.to_multiset()) == all.to_multiset(),
            is_ranked(out@),
            forall|i: int, j: int|
                0 <= i < out@.len() && 0 <= j < rest@.len() ==> !ranks_before(
                    #[trigger] rest@[j],
                    #[trigger] out@[i],
                ),
        decreases rest.len(),
    {
        let mut best: usize = 0;
        let mut k: usize = 1;
        while k < rest.len()
            invariant
                0 <= best < rest@.len(),
                1 <= k <= rest@.len(),
                forall|m: int| 0 <= m < k ==> !ranks_before(#[trigger] rest@[m], rest@[best as int]),
            decreases rest.len() - k,
        {
            if row_ranks_before(rest[k], rest[best]) {
                best = k;
            }
            k = k + 1;
        }
        let ghost rest0 = rest@;
        let ghost out0 = out@;
        let x = rest.remove(best);
        out.push(x);
        proof {
            assert(rest0[best as int] == x);
            assert(rest0.contains(x));
            vstd::seq_lib::to_multiset_contains(rest0, x);
            vstd::seq_lib::to_multiset_build(out0, x);
            vstd::seq_lib::to_multiset_remove(rest0, best as int);
            assert(out@ == out0.push(x));
            assert(out@.to_multiset().add(rest@.to_multiset()) =~= all.to_multiset());
            assert forall|i: int, j: int| 0 <= i < j < out@.len() implies !ranks_before(
                #[trigger] out@[j],
                #[trigger] out@[i],
            ) by {
                if j == out@.len() - 1 {
                    assert(out0[i] == out@[i]);
                    assert(rest0[best as int] == x);
                } else {
                    assert(out0[i] == out@[i] && out0[j] == out@[j]);
                }
            }
            assert forall|i: int, j: int|
                0 <= i < out@.len() && 0 <= j < rest@.len() implies !ranks_before(
                #[trigger] rest@[j],
                #[trigger] out@[i],
            ) by {
                let jj = if j < best { j } else { j + 1 };
                assert(rest@[j] == rest0[jj]);
                if i == out@.len() - 1 {
                    assert(out@[i] == rest0[best as int]);
                } else {
                    assert(out@[i] == out0[i]);
                }
            }
        }
    }
    proof {
        vstd::seq_lib::to_multiset_len(rest@);
        assert(rest@.to_multiset() =~= Multiset::empty());
    }
    assert(out@.to_multiset() =~= all.to_multiset());
    out
}

} // verus!
