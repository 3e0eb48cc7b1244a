use vstd::prelude::*;
use crate::tera_api::{context_insert, context_new, spec_context_map};

verus! {

/// The views of a sequence of key/value string pairs.
pub open spec fn spec_pairs_seq(pairs: Seq<(String, String)>) -> Seq<(Seq<char>, Seq<char>)> {
    pairs.map_values(|p: (String, String)| (p.0@, p.1@))
}

/// The map that inserting the pairs one by one, in order, builds up:
/// for a key given more than once the last value wins.
pub open spec fn spec_map_of_pairs(pairs: Seq<(Seq<char>, Seq<char>)>) -> Map<Seq<char>, Seq<char>>
    decreases pairs.len(),
{
    if pairs.len() == 0 {
        Map::<Seq<char>, Seq<char>>::empty()
    } else {
        spec_map_of_pairs(pairs.drop_last()).insert(pairs.last().0, pairs.last().1)
    }
}

/// Builds a render context holding exactly the given key/value pairs,
/// inserted in argument order.
pub fn build_context(pairs: &Vec<(String, String)>) -> (r: tera::Context)
    ensures
        spec_context_map(r) == spec_map_of_pairs(spec_pairs_seq(pairs@)),
{
    let mut ctx = context_new();
    let mut i: usize = 0;
    while i < pairs.len()
        invariant
            i <= pairs.len(),
            spec_context_map(ctx) == spec_map_of_pairs(spec_pairs_seq(pairs@.take(i as int))),
        decreases pairs.len() - i,
    {
        context_insert(&mut ctx, pairs[i].0.as_str(), pairs[i].1.as_str());
        proof {
            let s0 = spec_pairs_seq(pairs@.take(i as int));
            let s1 = spec_pairs_seq(pairs@.take(i + 1));
            assert(s1.drop_last() =~= s0);
            assert(s1.last() == (pairs@[i as int].0@, pairs@[i as int].1@));
        }
        i = i + 1;
    }
    proof {
        assert(pairs@.take(pairs@.len() as int) =~= pairs@);
    }
    ctx
}

/// The map built from a pair sequence holds exactly the keys that occur
/// in the sequence.
pub proof fn lemma_context_keys(pairs: Seq<(Seq<char>, Seq<char>)>, key: Seq<char>)
    ensures
        spec_map_of_pairs(pairs).dom().contains(key) <==> exists|i: int|
            0 <= i < pairs.len() && pairs[i].0 == key,
    decreases pairs.len(),
{
    if pairs.len() == 0 {
    } else {
        lemma_context_keys(pairs.drop_last(), key);
        assert(forall|i: int| 0 <= i < pairs.len() - 1 ==> pairs.drop_last()[i] == pairs[i]);
        if key == pairs.last().0 {
            assert(pairs[pairs.len() - 1].0 == key);
        } else {
            if exists|i: int| 0 <= i < pairs.len() && pairs[i].0 == key {
                let i = choose|i: int| 0 <= i < pairs.len() && pairs[i].0 == key;
                assert(i < pairs.len() - 1);
                assert(pairs.drop_last()[i].0 == key);
            }
        }
    }
}

/// For a key that occurs in the pair sequence, the map built from the
/// sequence binds it to the value of its last occurrence.
pub proof fn lemma_context_last_value(pairs: Seq<(Seq<char>, Seq<char>)>, key: Seq<char>, i: int)
    requires
        0 <= i < pairs.len(),
        pairs[i].0 == key,
        forall|j: int| i < j < pairs.len() ==> pairs[j].0 != key,
    ensures
        spec_map_of_pairs(pairs).dom().contains(key),
        spec_map_of_pairs(pairs)[key] == pairs[i].1,
    decreases pairs.len(),
{
    if i == pairs.len() - 1 {
        assert(spec_map_of_pairs(pairs)[key] == pairs.last().1);
    } else {
        assert(pairs[pairs.len() - 1].0 != key);
        assert(pairs.drop_last()[i].0 == key);
        assert(forall|j: int| i < j < pairs.len() - 1 ==> pairs.drop_last()[j].0 != key);
        lemma_context_last_value(pairs.drop_last(), key, i);
        assert(pairs.drop_last()[i].1 == pairs[i].1);
    }
}

} // verus!
