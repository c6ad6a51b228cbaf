//! Byte-wise lexicographic order, the order in which text keys are compared,
//! and the stable ordering of places by their keys.

use vstd::prelude::*;
use vstd::set_lib::*;
use vstd::utf8::encode_utf8;

verus! {

/// `a` comes no later than `b` when the two are compared byte by byte:
/// at the first place where they differ the smaller byte decides, and a
/// proper prefix comes first.
pub open spec fn lex_le(a: Seq<u8>, b: Seq<u8>) -> bool
    decreases a.len(),
{
    if a.len() == 0 {
        true
    } else if b.len() == 0 {
        false
    } else if a[0] != b[0] {
        a[0] < b[0]
    } else {
        lex_le(a.drop_first(), b.drop_first())
    }
}

/// Every sequence is no later than itself.
pub proof fn lemma_lex_le_reflexive(a: Seq<u8>)
    ensures
        lex_le(a, a),
    decreases a.len(),
{
    if a.len() > 0 {
        lemma_lex_le_reflexive(a.drop_first());
    }
}

/// Of two sequences one is no later than the other.
pub proof fn lemma_lex_le_total(a: Seq<u8>, b: Seq<u8>)
    ensures
        lex_le(a, b) || lex_le(b, a),
    decreases a.len(),
{
    if a.len() > 0 && b.len() > 0 && a[0] == b[0] {
        lemma_lex_le_total(a.drop_first(), b.drop_first());
    }
}

/// Two sequences that are each no later than the other are equal.
pub proof fn lemma_lex_le_antisymmetric(a: Seq<u8>, b: Seq<u8>)
    requires
        lex_le(a, b),
        lex_le(b, a),
    ensures
        a == b,
    decreases a.len(),
{
    if a.len() == 0 || b.len() == 0 {
        assert(a =~= b);
    } else {
        lemma_lex_le_antisymmetric(a.drop_first(), b.drop_first());
        assert(a =~= seq![a[0]] + a.drop_first());
        assert(b =~= seq![b[0]] + b.drop_first());
    }
}

/// The order is transitive.
pub proof fn lemma_lex_le_transitive(a: Seq<u8>, b: Seq<u8>, c: Seq<u8>)
    requires
        lex_le(a, b),
        lex_le(b, c),
    ensures
        lex_le(a, c),
    decreases a.len(),
{
    if a.len() > 0 && b.len() > 0 && c.len() > 0 && a[0] == b[0] && b[0] == c[0] {
        lemma_lex_le_transitive(a.drop_first(), b.drop_first(), c.drop_first());
    }
}

/// Compares two byte strings in lexicographic order.
pub fn bytes_le(a: &[u8], b: &[u8]) -> (r: bool)
    ensures
        r == lex_le(a@, b@),
{
    let mut i: usize = 0;
    assert(a@.skip(0) =~= a@ && b@.skip(0) =~= b@);
    while i < a.len() && i < b.len() && a[i] == b[i]
        invariant
            i <= a.len(),
            i <= b.len(),
            lex_le(a@, b@) == lex_le(a@.skip(i as int), b@.skip(i as int)),
        decreases a.len() - i,
    {
        proof {
            let x = a@.skip(i as int);
            let y = b@.skip(i as int);
            assert(x[0] == y[0]);
            assert(x.drop_first() =~= a@.skip(i + 1));
            assert(y.drop_first() =~= b@.skip(i + 1));
        }
        i = i + 1;
    }
    proof {
        let x = a@.skip(i as int);
        let y = b@.skip(i as int);
        if i < a.len() && i < b.len() {
            assert(x[0] == a@[i as int]);
            assert(y[0] == b@[i as int]);
        }
    }
    if i >= a.len() {
        true
    } else if i >= b.len() {
        false
    } else {
        a[i] < b[i]
    }
}

/// Whether the text `a` comes no later than the text `b` when their UTF-8
/// bytes are compared in lexicographic order.
pub fn text_le(a: &str, b: &str) -> (r: bool)
    ensures
        r == lex_le(encode_utf8(a@), encode_utf8(b@)),
{
    bytes_le(a.as_bytes(), b.as_bytes())
}

/// Whether place `a` comes before place `b` when places are ordered by their
/// keys and, where the keys are equal, by the places themselves.
pub open spec fn comes_before(keys: Seq<Seq<u8>>, a: int, b: int) -> bool {
    if keys[a] == keys[b] {
        a < b
    } else {
        lex_le(keys[a], keys[b])
    }
}

/// Whether `places` names each of the first `count` places of `keys` once,
/// ordered by key, with places of equal keys in increasing order.
pub open spec fn is_stable_order_of_first(
    keys: Seq<Seq<u8>>,
    places: Seq<int>,
    count: int,
) -> bool {
    &&& places.len() == count
    &&& forall|i: int| 0 <= i < places.len() ==> 0 <= #[trigger] places[i] < count
    &&& forall|i: int, j: int|
        0 <= i < j < places.len() ==> comes_before(keys, #[trigger] places[i], #[trigger] places[j])
}

/// Whether `places` names every place of `keys` once, ordered by key, with
/// places of equal keys in increasing order.
pub open spec fn is_stable_order(keys: Seq<Seq<u8>>, places: Seq<int>) -> bool {
    is_stable_order_of_first(keys, places, keys.len() as int)
}

/// Of two different places exactly one comes before the other.
pub proof fn lemma_comes_before_decides(keys: Seq<Seq<u8>>, a: int, b: int)
    requires
        a != b,
    ensures
        comes_before(keys, a, b) != comes_before(keys, b, a),
{
    if keys[a] != keys[b] {
        lemma_lex_le_total(keys[a], keys[b]);
        if lex_le(keys[a], keys[b]) && lex_le(keys[b], keys[a]) {
            lemma_lex_le_antisymmetric(keys[a], keys[b]);
        }
    }
}

/// A stable order names every place.
pub proof fn lemma_stable_order_covers(keys: Seq<Seq<u8>>, places: Seq<int>, place: int)
    requires
        is_stable_order(keys, places),
        0 <= place < keys.len(),
    ensures
        exists|i: int| 0 <= i < places.len() && places[i] == place,
{
    let n = keys.len() as int;
    assert forall|i: int, j: int|
        0 <= i < places.len() && 0 <= j < places.len() && i != j implies places[i] != places[j] by {
        if i < j {
            assert(comes_before(keys, places[i], places[j]));
        } else {
            assert(comes_before(keys, places[j], places[i]));
        }
    }
    assert(places.no_duplicates());
    places.unique_seq_to_set();
    lemma_int_range(0, n);
    let named = places.to_set();
    let all = set_int_range(0, n);
    assert forall|x: int| named.contains(x) implies all.contains(x) by {
        let i = choose|i: int| 0 <= i < places.len() && places[i] == x;
        assert(0 <= places[i] < n);
    }
    assert(named.subset_of(all));
    lemma_len_subset(named, all);
    lemma_subset_equality(named, all);
    assert(all.contains(place));
    assert(named.contains(place));
    assert(places.contains(place));
}

/// Two stable orders of the same keys agree at every place.
proof fn lemma_stable_orders_agree_at(keys: Seq<Seq<u8>>, p: Seq<int>, q: Seq<int>, i: int)
    requires
        is_stable_order(keys, p),
        is_stable_order(keys, q),
        0 <= i < keys.len(),
    ensures
        p[i] == q[i],
    decreases i,
{
    assert forall|k: int| 0 <= k < i implies p[k] == q[k] by {
        lemma_stable_orders_agree_at(keys, p, q, k);
    }
    let a = p[i];
    let b = q[i];
    if a != b {
        lemma_comes_before_decides(keys, a, b);
        if comes_before(keys, a, b) {
            lemma_stable_order_covers(keys, q, a);
            let j = choose|j: int| 0 <= j < q.len() && q[j] == a;
            if j < i {
                assert(comes_before(keys, p[j], p[i]));
            } else {
                assert(comes_before(keys, q[i], q[j]));
            }
        } else {
            lemma_stable_order_covers(keys, p, b);
            let j = choose|j: int| 0 <= j < p.len() && p[j] == b;
            if j < i {
                assert(comes_before(keys, q[j], q[i]));
            } else {
                assert(comes_before(keys, p[i], p[j]));
            }
        }
    }
}

/// The keys have one stable order only.
pub proof fn lemma_stable_order_unique(keys: Seq<Seq<u8>>, p: Seq<int>, q: Seq<int>)
    requires
        is_stable_order(keys, p),
        is_stable_order(keys, q),
    ensures
        p == q,
{
    assert forall|i: int| 0 <= i < p.len() implies p[i] == q[i] by {
        lemma_stable_orders_agree_at(keys, p, q, i);
    }
    assert(p =~= q);
}

/// In a stable order the keys never decrease.
pub proof fn lemma_stable_order_sorted(keys: Seq<Seq<u8>>, places: Seq<int>, i: int, j: int)
    requires
        is_stable_order(keys, places),
        0 <= i <= j < places.len(),
    ensures
        lex_le(keys[places[i]], keys[places[j]]),
{
    if i < j {
        assert(comes_before(keys, places[i], places[j]));
    }
    lemma_lex_le_reflexive(keys[places[i]]);
}

/// Whether the place `next` belongs at `slot` in `places`: what stands
/// before the slot has a key no later than its key, what stands from the
/// slot on has a later key.
pub open spec fn is_slot_for(keys: Seq<Seq<u8>>, places: Seq<int>, slot: int, next: int) -> bool {
    &&& 0 <= slot <= places.len()
    &&& slot > 0 ==> lex_le(keys[places[slot - 1]], keys[next])
    &&& forall|i: int| slot <= i < places.len() ==> !lex_le(keys[#[trigger] places[i]], keys[next])
}

/// Putting the next place at its slot keeps the order stable.
pub proof fn lemma_stable_insert(keys: Seq<Seq<u8>>, places: Seq<int>, slot: int, next: int)
    requires
        0 <= next < keys.len(),
        is_stable_order_of_first(keys, places, next),
        is_slot_for(keys, places, slot, next),
    ensures
        is_stable_order_of_first(keys, places.insert(slot, next), next + 1),
{
    let after = places.insert(slot, next);
    // What stands before the slot comes before the new place.
    assert forall|i: int| 0 <= i < slot implies comes_before(keys, places[i], next) by {
        let last = places[slot - 1];
        let here = places[i];
        if i < slot - 1 {
            assert(comes_before(keys, places[i], places[slot - 1]));
        }
        lemma_lex_le_reflexive(keys[here]);
        lemma_lex_le_transitive(keys[here], keys[last], keys[next]);
    }
    // The new place comes before what stands from the slot on.
    assert forall|i: int| slot <= i < places.len() implies comes_before(keys, next, places[i]) by {
        lemma_lex_le_total(keys[places[i]], keys[next]);
        lemma_lex_le_reflexive(keys[next]);
    }
    assert forall|i: int, j: int| 0 <= i < j < after.len() implies comes_before(
        keys,
        #[trigger] after[i],
        #[trigger] after[j],
    ) by {
        if i < slot && j > slot {
            assert(after[i] == places[i]);
            assert(after[j] == places[j - 1]);
        } else if i > slot {
            assert(after[i] == places[i - 1]);
            assert(after[j] == places[j - 1]);
        } else if j < slot {
            assert(after[i] == places[i]);
            assert(after[j] == places[j]);
        } else if i == slot {
            assert(after[j] == places[j - 1]);
        } else {
            assert(after[i] == places[i]);
        }
    }
    assert forall|i: int| 0 <= i < after.len() implies 0 <= #[trigger] after[i] < next + 1 by {
        if i < slot {
            assert(after[i] == places[i]);
        } else if i > slot {
            assert(after[i] == places[i - 1]);
        }
    }
}

/// The next place has a slot among the first `upto` of `places`, and so among
/// all of them.
proof fn lemma_slot_exists(keys: Seq<Seq<u8>>, places: Seq<int>, next: int, upto: int) -> (slot:
    int)
    requires
        0 <= next < keys.len(),
        is_stable_order_of_first(keys, places, next),
        0 <= upto <= places.len(),
        forall|i: int| upto <= i < places.len() ==> !lex_le(keys[#[trigger] places[i]], keys[next]),
    ensures
        is_slot_for(keys, places, slot, next),
    decreases upto,
{
    if upto == 0 || lex_le(keys[places[upto - 1]], keys[next]) {
        upto
    } else {
        lemma_slot_exists(keys, places, next, upto - 1)
    }
}

/// The first `count` places of `keys` have a stable order.
proof fn lemma_stable_order_of_first_exists(keys: Seq<Seq<u8>>, count: int) -> (places: Seq<int>)
    requires
        0 <= count <= keys.len(),
    ensures
        is_stable_order_of_first(keys, places, count),
    decreases count,
{
    if count == 0 {
        Seq::empty()
    } else {
        let before = lemma_stable_order_of_first_exists(keys, count - 1);
        let slot = lemma_slot_exists(keys, before, count - 1, count - 1);
        lemma_stable_insert(keys, before, slot, count - 1);
        before.insert(slot, count - 1)
    }
}

/// All keys have a stable order.
pub proof fn lemma_stable_order_exists(keys: Seq<Seq<u8>>)
    ensures
        exists|places: Seq<int>| is_stable_order(keys, places),
{
    let places = lemma_stable_order_of_first_exists(keys, keys.len() as int);
    assert(is_stable_order(keys, places));
}

/// The UTF-8 bytes of each text, in order.
pub open spec fn text_keys(texts: Seq<String>) -> Seq<Seq<u8>> {
    texts.map_values(|text: String| encode_utf8(text@))
}

/// The places as mathematical integers.
pub open spec fn as_places(places: Seq<usize>) -> Seq<int> {
    places.map_values(|place: usize| place as int)
}

/// The stable order of the places of `texts` by the bytes of the texts.
pub fn stable_order(texts: &Vec<String>) -> (places: Vec<usize>)
    ensures
        is_stable_order(text_keys(texts@), as_places(places@)),
{
    let ghost keys = text_keys(texts@);
    let mut places: Vec<usize> = Vec::new();
    let mut next: usize = 0;
    while next < texts.len()
        invariant
            next <= texts.len(),
            keys == text_keys(texts@),
            is_stable_order_of_first(keys, as_places(places@), next as int),
        decreases texts.len() - next,
    {
        let ghost before = as_places(places@);
        assert forall|i: int| 0 <= i < places.len() implies #[trigger] places[i] < next by {
            assert(0 <= before[i] < next);
        }
        let mut slot: usize = places.len();
        while slot > 0 && !text_le(texts[places[slot - 1]].as_str(), texts[next].as_str())
            invariant
                slot <= places.len(),
                next < texts.len(),
                keys == text_keys(texts@),
                before == as_places(places@),
                forall|i: int| 0 <= i < places.len() ==> #[trigger] places[i] < next,
                forall|i: int|
                    slot <= i < before.len() ==> !lex_le(keys[#[trigger] before[i]], keys[next as int]),
            decreases slot,
        {
            assert(before[slot - 1] == places[slot - 1]);
            slot = slot - 1;
        }
        proof {
            if slot > 0 {
                assert(before[slot - 1] == places[slot - 1]);
            }
            lemma_stable_insert(keys, before, slot as int, next as int);
        }
        places.insert(slot, next);
        assert(as_places(places@) =~= before.insert(slot as int, next as int));
        next = next + 1;
    }
    places
}

} // verus!
