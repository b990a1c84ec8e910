//! The features that a session tells a client of: those of the handler and
//! those that every session has.

use crate::code::distinct;
use vstd::prelude::*;

verus! {

/// The texts that `list` holds.
pub open spec fn texts(list: Seq<String>) -> Seq<Seq<char>> {
    Seq::new(list.len(), |i: int| list[i]@)
}

/// The features that every session has.
pub open spec fn default_features() -> Seq<Seq<char>> {
    seq!["UTF8"@, "SIZE"@, "MDTM"@, "MFMT"@, "MLST"@, "MLSD"@]
}

/// `list` without the texts that have stood in it before.
pub open spec fn without_repeats(list: Seq<Seq<char>>) -> Seq<Seq<char>>
    decreases list.len(),
{
    if list.len() == 0 {
        seq![]
    } else if without_repeats(list.drop_last()).contains(list.last()) {
        without_repeats(list.drop_last())
    } else {
        without_repeats(list.drop_last()).push(list.last())
    }
}

/// The features of a session whose handler has the features `host`: those,
/// and the ones that every session has, each once.
pub open spec fn merged_features(host: Seq<Seq<char>>) -> Seq<Seq<char>> {
    without_repeats(host + default_features())
}

/// No text stands twice in what `without_repeats` gives, and a text stands in
/// it if and only if it stands in the list.
pub proof fn lemma_without_repeats(list: Seq<Seq<char>>)
    ensures
        forall|i: int, j: int|
            0 <= i < j < without_repeats(list).len() ==> without_repeats(list)[i]
                != without_repeats(list)[j],
        forall|t: Seq<char>| without_repeats(list).contains(t) <==> list.contains(t),
    decreases list.len(),
{
    if list.len() > 0 {
        let front = list.drop_last();
        let last = list.last();
        lemma_without_repeats(front);
        let kept = without_repeats(front);
        assert forall|t: Seq<char>| without_repeats(list).contains(t) <==> list.contains(t) by {
            if list.contains(t) {
                let k = choose|k: int| 0 <= k < list.len() && list[k] == t;
                if k < list.len() - 1 {
                    assert(front[k] == t);
                    assert(front.contains(t));
                    assert(kept.contains(t));
                    let m = choose|m: int| 0 <= m < kept.len() && kept[m] == t;
                    assert(without_repeats(list)[m] == t);
                } else if !kept.contains(last) {
                    assert(without_repeats(list)[kept.len() as int] == t);
                }
            }
            if without_repeats(list).contains(t) {
                let m = choose|m: int|
                    0 <= m < without_repeats(list).len() && without_repeats(list)[m] == t;
                if m < kept.len() {
                    assert(kept[m] == t);
                    assert(front.contains(t));
                    let k = choose|k: int| 0 <= k < front.len() && front[k] == t;
                    assert(list[k] == t);
                } else {
                    assert(list[list.len() - 1] == t);
                }
            }
        }
    }
}

/// Appends `item` to `list` unless a text like it stands in `list` already.
fn push_new(list: &mut Vec<String>, item: String)
    ensures
        texts(final(list)@) == if texts(old(list)@).contains(item@) {
            texts(old(list)@)
        } else {
            texts(old(list)@).push(item@)
        },
{
    let mut i: usize = 0;
    while i < list.len()
        invariant
            i <= list.len(),
            *list == *old(list),
            forall|k: int| 0 <= k < i ==> texts(list@)[k] != item@,
        decreases list.len() - i,
    {
        if list[i] == item {
            assert(texts(list@)[i as int] == item@);
            return ;
        }
        i = i + 1;
    }
    list.push(item);
    assert(texts(list@) =~= texts(old(list)@).push(item@));
}

/// The features that every session has.
fn default_feature_list() -> (list: Vec<String>)
    ensures
        texts(list@) == default_features(),
{
    let mut list: Vec<String> = Vec::new();
    list.push("UTF8".to_owned());
    list.push("SIZE".to_owned());
    list.push("MDTM".to_owned());
    list.push("MFMT".to_owned());
    list.push("MLST".to_owned());
    list.push("MLSD".to_owned());
    assert(texts(list@) =~= default_features());
    list
}

/// The features of a session whose handler has the features `host`: those,
/// and the ones that every session has, each once and in this order.
pub fn merge_features(host: Vec<String>) -> (merged: Vec<String>)
    ensures
        texts(merged@) == merged_features(texts(host@)),
        distinct(merged@),
{
    let defaults = default_feature_list();
    let ghost all = texts(host@) + default_features();
    let mut merged: Vec<String> = Vec::new();
    let mut i: usize = 0;
    assert(all.take(0) =~= Seq::<Seq<char>>::empty());
    while i < host.len()
        invariant
            i <= host.len(),
            all == texts(host@) + default_features(),
            texts(merged@) == without_repeats(all.take(i as int)),
        decreases host.len() - i,
    {
        assert(all.take(i + 1).drop_last() =~= all.take(i as int));
        assert(all.take(i + 1).last() == host@[i as int]@);
        push_new(&mut merged, host[i].clone());
        i = i + 1;
    }
    let mut j: usize = 0;
    while j < defaults.len()
        invariant
            j <= defaults.len(),
            texts(defaults@) == default_features(),
            all == texts(host@) + default_features(),
            texts(merged@) == without_repeats(all.take(host.len() + j)),
        decreases defaults.len() - j,
    {
        assert(all.take(host.len() + j + 1).drop_last() =~= all.take(host.len() + j));
        assert(all.take(host.len() + j + 1).last() == texts(defaults@)[j as int]);
        push_new(&mut merged, defaults[j].clone());
        j = j + 1;
    }
    assert(all.take(host.len() + defaults.len()) =~= all);
    proof {
        lemma_without_repeats(all);
        assert forall|a: int, b: int| 0 <= a < b < merged@.len() implies (#[trigger] merged@[a])@
            != (#[trigger] merged@[b])@ by {
            assert(texts(merged@)[a] == merged@[a]@);
            assert(texts(merged@)[b] == merged@[b]@);
        }
    }
    merged
}

} // verus!
