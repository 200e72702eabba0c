use vstd::prelude::*;
use crate::model::{JsonV, obj_field, matches_item, matches_pred};
use crate::value::{jmodel, value_get, value_as_str, value_as_array, value_clone, str_eq};

verus! {

/// The models of a sequence of parsed JSON values, element by element.
pub open spec fn jmodels(s: Seq<serde_json::Value>) -> Seq<JsonV> {
    s.map_values(|v: serde_json::Value| jmodel(v))
}

/// Does this array contain the exact string `"PDP"`?
fn contains_pdp(arr: &Vec<serde_json::Value>) -> (r: bool)
    ensures
        r == jmodels(arr@).contains(JsonV::Str("PDP"@)),
{
    let mut i: usize = 0;
    while i < arr.len()
        invariant
            i <= arr.len(),
            forall|k: int| 0 <= k < i ==> jmodel(#[trigger] arr@[k]) != JsonV::Str("PDP"@),
        decreases arr.len() - i,
    {
        let hit = match value_as_str(&arr[i]) {
            Some(s) => str_eq(s, "PDP"),
            None => false,
        };
        if hit {
            proof {
                assert(jmodels(arr@)[i as int] == JsonV::Str("PDP"@));
            }
            return true;
        }
        i += 1;
    }
    proof {
        assert forall|k: int| 0 <= k < jmodels(arr@).len() implies jmodels(arr@)[k]
            != JsonV::Str("PDP"@) by {
            assert(jmodels(arr@)[k] == jmodel(arr@[k]));
        }
    }
    false
}

/// Does this item pass the retention predicate?
pub fn item_matches(item: &serde_json::Value) -> (r: bool)
    ensures
        r == matches_item(jmodel(*item)),
{
    match value_get(item, "affectedPageType") {
        None => false,
        Some(a) => {
            let is_list = match value_get(a, "type") {
                Some(t) => match value_as_str(t) {
                    Some(s) => str_eq(s, "list"),
                    None => false,
                },
                None => false,
            };
            let has_pdp = match value_get(a, "value") {
                Some(v) => match value_as_array(v) {
                    Some(elts) => {
                        let r = contains_pdp(elts);
                        proof {
                            assert(jmodels(elts@) =~= jmodel(*v)->Arr_0);
                        }
                        r
                    },
                    None => false,
                },
                None => false,
            };
            is_list && has_pdp
        },
    }
}

/// Filtering a sequence extended by one element keeps the old filtered
/// prefix and appends the new element exactly when it satisfies the
/// predicate.
proof fn lemma_filter_push<A>(s: Seq<A>, x: A, p: spec_fn(A) -> bool)
    ensures
        s.push(x).filter(p) == (if p(x) {
            s.filter(p).push(x)
        } else {
            s.filter(p)
        }),
{
    reveal(Seq::filter);
    assert(s.push(x).drop_last() =~= s);
    assert(s.push(x).last() == x);
}

/// Keep exactly the items that satisfy the retention predicate, in their
/// original relative order.
pub fn filter_response(arr: &Vec<serde_json::Value>) -> (r: Vec<serde_json::Value>)
    ensures
        jmodels(r@) == jmodels(arr@).filter(matches_pred()),
{
    let mut out: Vec<serde_json::Value> = Vec::new();
    let mut i: usize = 0;
    while i < arr.len()
        invariant
            i <= arr.len(),
            jmodels(out@) == jmodels(arr@.take(i as int)).filter(matches_pred()),
        decreases arr.len() - i,
    {
        let keep = item_matches(&arr[i]);
        proof {
            assert(jmodels(arr@.take(i + 1)) =~= jmodels(arr@.take(i as int)).push(
                jmodel(arr@[i as int]),
            ));
            lemma_filter_push(
                jmodels(arr@.take(i as int)),
                jmodel(arr@[i as int]),
                matches_pred(),
            );
        }
        if keep {
            out.push(value_clone(&arr[i]));
        }
        i += 1;
    }
    proof {
        assert(arr@.take(arr@.len() as int) =~= arr@);
    }
    out
}

/// An index map witnessing that `s` occurs inside `t` in order: every
/// element of `s` stands in `t` at its mapped position, and the positions
/// strictly increase.
pub open spec fn subseq_map_ok<A>(idx: Seq<int>, s: Seq<A>, t: Seq<A>) -> bool {
    &&& idx.len() == s.len()
    &&& forall|i: int| 0 <= i < idx.len() ==> 0 <= #[trigger] idx[i] < t.len()
    &&& forall|i: int, k: int| 0 <= i < k < idx.len() ==> idx[i] < idx[k]
    &&& forall|i: int| 0 <= i < idx.len() ==> s[i] == t[#[trigger] idx[i]]
}

/// `s` is a subsequence of `t`: its elements occur in `t`, in the same
/// relative order.
pub open spec fn is_subsequence_of<A>(s: Seq<A>, t: Seq<A>) -> bool {
    exists|idx: Seq<int>| subseq_map_ok(idx, s, t)
}

proof fn lemma_filter_is_subsequence<A>(t: Seq<A>, p: spec_fn(A) -> bool)
    ensures
        is_subsequence_of(t.filter(p), t),
    decreases t.len(),
{
    reveal(Seq::filter);
    if t.len() == 0 {
        let idx = Seq::<int>::empty();
        assert(subseq_map_ok(idx, t.filter(p), t));
    } else {
        let t0 = t.drop_last();
        lemma_filter_is_subsequence(t0, p);
        let idx0 = choose|idx: Seq<int>| subseq_map_ok(idx, t0.filter(p), t0);
        if p(t.last()) {
            let idx1 = idx0.push(t0.len() as int);
            assert(subseq_map_ok(idx1, t.filter(p), t));
        } else {
            assert(subseq_map_ok(idx0, t.filter(p), t));
        }
    }
}

/// Law: what the filter keeps is a subsequence of its input, in the
/// original relative order.
pub proof fn lemma_filter_subsequence(s: Seq<JsonV>)
    ensures
        is_subsequence_of(s.filter(matches_pred()), s),
{
    lemma_filter_is_subsequence(s, matches_pred());
}

/// Law: the filter includes an item exactly when the input holds it and
/// it satisfies the retention predicate — it is an object whose
/// `affectedPageType` object has `type == "list"` and a `value` array
/// containing `"PDP"`.
pub proof fn lemma_filter_membership(s: Seq<JsonV>, j: JsonV)
    ensures
        s.filter(matches_pred()).contains(j) <==> (s.contains(j) && matches_item(j)),
{
    let p = matches_pred();
    if s.filter(p).contains(j) {
        let i = choose|i: int| 0 <= i < s.filter(p).len() && s.filter(p)[i] == j;
        s.lemma_filter_pred(p, i);
        s.lemma_filter_contains_rev(p, j);
    }
    if s.contains(j) && matches_item(j) {
        let i = choose|i: int| 0 <= i < s.len() && s[i] == j;
        s.lemma_filter_contains(p, i);
    }
}

/// Law: filtering the empty sequence yields the empty sequence.
pub proof fn lemma_filter_empty()
    ensures
        Seq::<JsonV>::empty().filter(matches_pred()) == Seq::<JsonV>::empty(),
{
    reveal(Seq::filter);
}

/// Law: an item without an `affectedPageType` field never passes the
/// filter.
pub proof fn lemma_missing_page_type_excluded(s: Seq<JsonV>, j: JsonV)
    requires
        obj_field(j, "affectedPageType"@) is None,
    ensures
        !s.filter(matches_pred()).contains(j),
{
    let p = matches_pred();
    if s.filter(p).contains(j) {
        let i = choose|i: int| 0 <= i < s.filter(p).len() && s.filter(p)[i] == j;
        s.lemma_filter_pred(p, i);
    }
}

proof fn lemma_filter_idem<A>(s: Seq<A>, p: spec_fn(A) -> bool)
    ensures
        s.filter(p).filter(p) == s.filter(p),
    decreases s.len(),
{
    reveal(Seq::filter);
    if s.len() == 0 {
    } else {
        let t = s.drop_last();
        lemma_filter_idem(t, p);
        if p(s.last()) {
            lemma_filter_push(t.filter(p), s.last(), p);
        }
    }
}

/// Law: the filter is idempotent — filtering a second time changes
/// nothing.
pub proof fn lemma_filter_idempotent(s: Seq<JsonV>)
    ensures
        s.filter(matches_pred()).filter(matches_pred()) == s.filter(matches_pred()),
{
    lemma_filter_idem(s, matches_pred());
}

} // verus!
