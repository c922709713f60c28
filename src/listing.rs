use crate::identity::{seed_text, viewer_seed, User};
use rand::seq::SliceRandom;
use vstd::prelude::*;

verus! {

/// The order into which a generator seeded by `seed` shuffles `items`.
pub uninterp spec fn seeded_shuffle(seed: Seq<char>, items: Seq<usize>) -> Seq<usize>;

/// Relies on `rand_seeder::Seeder::from(seed).make_rng::<StdRng>()` and
/// `SliceRandom::shuffle`: the generator depends on the seed text alone, and
/// a shuffle only reorders the items.
#[verifier::external_body]
fn shuffle_seeded(seed: &str, items: &mut Vec<usize>)
    ensures
        final(items)@ == seeded_shuffle(seed@, old(items)@),
        final(items)@.to_multiset() == old(items)@.to_multiset(),
{
    let mut rng: rand::rngs::StdRng = rand_seeder::Seeder::from(seed).make_rng();
    items.shuffle(&mut rng);
}

/// The positions `0, 1, ..., n - 1` in order.
pub open spec fn positions(n: nat) -> Seq<usize> {
    Seq::new(n, |i: int| i as usize)
}

/// The order in which a listing of `n` items is shown to a viewer.
pub open spec fn viewer_order(viewer: Option<(Seq<char>, Seq<char>)>, n: nat) -> Seq<usize> {
    match viewer {
        None => positions(n),
        Some(v) => seeded_shuffle(seed_text(v.0, v.1), positions(n)),
    }
}

/// The order in which a listing of `len` items is shown: as stored to an
/// anonymous viewer; to a signed-in viewer, shuffled by a generator seeded
/// with `handle@instance`, so that the same viewer always sees the same order.
/// Each position occurs exactly once.
pub fn listing_order(viewer: Option<&User>, len: usize) -> (r: Vec<usize>)
    ensures
        r@ == viewer_order(
            match viewer {
                None => None,
                Some(u) => Some((u.handle@, u.instance@)),
            },
            len as nat,
        ),
        r@.to_multiset() == positions(len as nat).to_multiset(),
{
    let mut order: Vec<usize> = Vec::new();
    let mut i: usize = 0;
    while i < len
        invariant
            i <= len,
            order@ == positions(i as nat),
        decreases len - i,
    {
        order.push(i);
        i = i + 1;
        assert(order@ =~= positions(i as nat));
    }
    match viewer {
        None => order,
        Some(user) => {
            let seed = viewer_seed(user);
            shuffle_seeded(seed.as_str(), &mut order);
            order
        },
    }
}

/// Two requests by the same viewer for a listing of the same length see the
/// same order.
pub proof fn lemma_same_viewer_same_order(
    handle1: Seq<char>,
    instance1: Seq<char>,
    handle2: Seq<char>,
    instance2: Seq<char>,
    n: nat,
)
    requires
        handle1 == handle2,
        instance1 == instance2,
    ensures
        viewer_order(Some((handle1, instance1)), n) == viewer_order(Some((handle2, instance2)), n),
{
}

} // verus!
