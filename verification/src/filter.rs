//! The filter engine: a query of space-separated terms narrows a list down
//! to the items whose text holds every inclusion term and no exclusion term.
//! Matching is plain substring containment on lower-cased text, and the
//! survivors keep the order they came in.

use crate::text::{contains, contains_text, is_blank, lowercase_of, to_lowercase, trim, trim_of};
use vstd::prelude::*;
use vstd::string::*;

verus! {

/// The views of a sequence of strings.
pub open spec fn texts(v: Seq<String>) -> Seq<Seq<char>> {
    Seq::new(v.len(), |i: int| v[i]@)
}

/// Each text in its lower-case form.
pub open spec fn lowered(v: Seq<Seq<char>>) -> Seq<Seq<char>> {
    Seq::new(v.len(), |i: int| lowercase_of(v[i]))
}

/// A term starts at `i`: a character that is no space, at the front of the
/// text or right behind a space.
pub open spec fn is_term_start(s: Seq<char>, i: int) -> bool {
    0 <= i < s.len() && s[i] != ' ' && (i == 0 || s[i - 1] == ' ')
}

/// The first index at or after `from` that holds a space, or the length of
/// the text where there is none.
pub open spec fn term_end(s: Seq<char>, from: int) -> int
    decreases s.len() - from,
{
    if from < 0 || from >= s.len() || s[from] == ' ' {
        from
    } else {
        term_end(s, from + 1)
    }
}

/// The terms that start at or after `from`, in order.
pub open spec fn terms_from(s: Seq<char>, from: int) -> Seq<Seq<char>>
    decreases s.len() - from,
{
    if from < 0 || from >= s.len() {
        Seq::empty()
    } else if is_term_start(s, from) {
        seq![s.subrange(from, term_end(s, from))] + terms_from(s, from + 1)
    } else {
        terms_from(s, from + 1)
    }
}

/// The maximal runs of characters other than the ASCII space, in order.
/// None of them is empty.
pub open spec fn split_terms(s: Seq<char>) -> Seq<Seq<char>> {
    terms_from(s, 0)
}

/// The terms of a query: it is trimmed, lower-cased and split on spaces.
pub open spec fn query_terms(query: Seq<char>) -> Seq<Seq<char>> {
    split_terms(lowercase_of(trim_of(query)))
}

/// A term excludes when it starts with `-` and something follows the `-`.
/// A bare `-` is an ordinary term that is looked for as it stands.
pub open spec fn is_exclusion(term: Seq<char>) -> bool {
    term.len() >= 2 && term[0] == '-'
}

/// Whether one term lets a lower-cased text through.
pub open spec fn term_accepts(key: Seq<char>, term: Seq<char>) -> bool {
    if is_exclusion(term) {
        !contains_text(key, term.skip(1))
    } else {
        contains_text(key, term)
    }
}

/// Whether the first `n` terms let a lower-cased text through, looking at
/// the excluding terms only (`excluding`) or at the others only.
pub open spec fn accepted_by_prefix(
    key: Seq<char>,
    terms: Seq<Seq<char>>,
    excluding: bool,
    n: int,
) -> bool {
    forall|k: int|
        0 <= k < n && is_exclusion(#[trigger] terms[k]) == excluding ==> term_accepts(key, terms[k])
}

/// A lower-cased text passes when it holds none of the exclusion terms and
/// all of the inclusion terms.
pub open spec fn passes(key: Seq<char>, terms: Seq<Seq<char>>) -> bool {
    forall|k: int| 0 <= k < terms.len() ==> term_accepts(key, #[trigger] terms[k])
}

/// For each lower-cased text, whether it passes.
pub open spec fn keep_flags(keys: Seq<Seq<char>>, terms: Seq<Seq<char>>) -> Seq<bool> {
    Seq::new(keys.len(), |i: int| passes(keys[i], terms))
}

/// The indices that are flagged, in increasing order.
pub open spec fn kept_indices(keep: Seq<bool>) -> Seq<int>
    decreases keep.len(),
{
    if keep.len() == 0 {
        Seq::empty()
    } else if keep.last() {
        kept_indices(keep.drop_last()).push(keep.len() - 1)
    } else {
        kept_indices(keep.drop_last())
    }
}

/// Every index below `n`, in order.
pub open spec fn all_indices(n: nat) -> Seq<int> {
    Seq::new(n, |i: int| i)
}

/// The indices of the items that a query keeps, given the text of each item.
/// A blank query keeps them all.
pub open spec fn query_keeps(item_texts: Seq<Seq<char>>, query: Seq<char>) -> Seq<int> {
    if is_blank(query) {
        all_indices(item_texts.len())
    } else {
        kept_indices(keep_flags(lowered(item_texts), query_terms(query)))
    }
}

/// `result` holds a clone of `items[picked[j]]` at each place `j`.
pub open spec fn is_selection<T: Clone>(items: Seq<T>, picked: Seq<int>, result: Seq<T>) -> bool {
    &&& result.len() == picked.len()
    &&& forall|j: int|
        #![trigger picked[j]]
        #![trigger result[j]]
        0 <= j < picked.len() ==> {
            &&& 0 <= picked[j] < items.len()
            &&& cloned(items[picked[j]], result[j])
        }
}

/// `outs` holds, for each item, a text that `mapper` may return for it.
pub open spec fn projections_of<T, F: Fn(&T) -> String>(
    mapper: F,
    items: Seq<T>,
    outs: Seq<String>,
) -> bool {
    &&& outs.len() == items.len()
    &&& forall|i: int|
        0 <= i < items.len() ==> call_ensures(mapper, (&items[i],), #[trigger] outs[i])
}

/// What `kept_indices` holds: exactly the flagged indices, each once, in
/// strictly increasing order.
pub proof fn lemma_kept_indices(keep: Seq<bool>)
    ensures
        kept_indices(keep).len() <= keep.len(),
        forall|j: int|
            0 <= j < kept_indices(keep).len() ==> 0 <= #[trigger] kept_indices(keep)[j]
                < keep.len() && keep[kept_indices(keep)[j]],
        forall|a: int, b: int|
            0 <= a < b < kept_indices(keep).len() ==> #[trigger] kept_indices(keep)[a]
                < #[trigger] kept_indices(keep)[b],
        forall|i: int|
            0 <= i < keep.len() && #[trigger] keep[i] ==> kept_indices(keep).contains(i),
    decreases keep.len(),
{
    if keep.len() > 0 {
        let front = keep.drop_last();
        lemma_kept_indices(front);
        let rest = kept_indices(front);
        let all = kept_indices(keep);
        assert forall|i: int| 0 <= i < keep.len() && #[trigger] keep[i] implies all.contains(
            i,
        ) by {
            if i < keep.len() - 1 {
                assert(front[i]);
                assert(rest.contains(i));
                let j = choose|j: int| 0 <= j < rest.len() && rest[j] == i;
                assert(all[j] == i);
            } else {
                assert(all[all.len() - 1] == i);
            }
        }
    }
}

/// Stability: the indices that a query keeps lie inside the input and rise
/// strictly, so that the kept items stand in the result in the order in
/// which they stood in the input, and none of them twice.
pub proof fn lemma_filter_is_stable(item_texts: Seq<Seq<char>>, query: Seq<char>)
    ensures
        forall|j: int|
            0 <= j < query_keeps(item_texts, query).len() ==> 0 <= #[trigger] query_keeps(
                item_texts,
                query,
            )[j] < item_texts.len(),
        forall|a: int, b: int|
            0 <= a < b < query_keeps(item_texts, query).len() ==> #[trigger] query_keeps(
                item_texts,
                query,
            )[a] < #[trigger] query_keeps(item_texts, query)[b],
{
    if !is_blank(query) {
        lemma_kept_indices(keep_flags(lowered(item_texts), query_terms(query)));
    }
}

/// What a query that is not blank keeps: exactly the items whose lower-cased
/// text passes its terms.
pub proof fn lemma_filter_keeps_what_passes(item_texts: Seq<Seq<char>>, query: Seq<char>, i: int)
    requires
        !is_blank(query),
        0 <= i < item_texts.len(),
    ensures
        query_keeps(item_texts, query).contains(i) <==> passes(
            lowercase_of(item_texts[i]),
            query_terms(query),
        ),
{
    let keep = keep_flags(lowered(item_texts), query_terms(query));
    lemma_kept_indices(keep);
    let kept = kept_indices(keep);
    assert(keep[i] == passes(lowered(item_texts)[i], query_terms(query)));
    if kept.contains(i) {
        let j = choose|j: int| 0 <= j < kept.len() && kept[j] == i;
        assert(keep[kept[j]]);
    }
}

/// Exclusion wins: a text that holds what an exclusion term names does not
/// pass, whatever inclusion terms it matches.
pub proof fn lemma_exclusion_wins(key: Seq<char>, terms: Seq<Seq<char>>, k: int)
    requires
        0 <= k < terms.len(),
        is_exclusion(terms[k]),
        contains_text(key, terms[k].skip(1)),
    ensures
        !passes(key, terms),
{
    assert(!term_accepts(key, terms[k]));
}

/// Identity on a blank query: every index is kept, in order, so that the
/// result holds a clone of each item at the item's own place.
pub proof fn lemma_blank_query_is_identity<T: Clone>(
    items: Seq<T>,
    item_texts: Seq<Seq<char>>,
    query: Seq<char>,
    result: Seq<T>,
)
    requires
        is_blank(query),
        item_texts.len() == items.len(),
        is_selection(items, query_keeps(item_texts, query), result),
    ensures
        query_keeps(item_texts, query) == all_indices(items.len()),
        result.len() == items.len(),
        forall|i: int| 0 <= i < items.len() ==> cloned(items[i], #[trigger] result[i]),
{
    assert forall|i: int| 0 <= i < items.len() implies cloned(items[i], #[trigger] result[i]) by {
        assert(all_indices(items.len())[i] == i);
    }
}

/// What `term_end` finds: the end of the run of characters other than the
/// space that starts at `from`.
pub proof fn lemma_term_end(s: Seq<char>, from: int)
    requires
        0 <= from <= s.len(),
    ensures
        from <= term_end(s, from) <= s.len(),
        forall|k: int| from <= k < term_end(s, from) ==> #[trigger] s[k] != ' ',
        term_end(s, from) < s.len() ==> s[term_end(s, from)] == ' ',
    decreases s.len() - from,
{
    if from < s.len() && s[from] != ' ' {
        lemma_term_end(s, from + 1);
    }
}

/// No term is empty, and no term holds a space.
pub proof fn lemma_terms_hold_no_space(s: Seq<char>, from: int)
    requires
        0 <= from <= s.len(),
    ensures
        forall|k: int|
            0 <= k < terms_from(s, from).len() ==> (#[trigger] terms_from(s, from)[k]).len() > 0,
        forall|k: int, j: int|
            0 <= k < terms_from(s, from).len() && 0 <= j < terms_from(s, from)[k].len()
                ==> #[trigger] terms_from(s, from)[k][j] != ' ',
    decreases s.len() - from,
{
    if from < s.len() {
        lemma_terms_hold_no_space(s, from + 1);
        if is_term_start(s, from) {
            lemma_term_end(s, from);
            let term = s.subrange(from, term_end(s, from));
            let rest = terms_from(s, from + 1);
            let all = terms_from(s, from);
            assert(all == seq![term] + rest);
            assert forall|k: int| 0 <= k < all.len() implies (#[trigger] all[k]).len() > 0 by {
                if k > 0 {
                    assert(all[k] == rest[k - 1]);
                }
            }
            assert forall|k: int, j: int|
                0 <= k < all.len() && 0 <= j < all[k].len() implies #[trigger] all[k][j]
                != ' ' by {
                if k > 0 {
                    assert(all[k] == rest[k - 1]);
                } else {
                    assert(term[j] == s[from + j]);
                }
            }
        }
    }
}

/// Splits a text on the ASCII space and drops the empty pieces.
pub fn split_terms_of(s: &str) -> (terms: Vec<String>)
    ensures
        texts(terms@) == split_terms(s@),
{
    let n: usize = s.unicode_len();
    let mut terms: Vec<String> = Vec::new();
    let mut i: usize = 0;
    assert(texts(terms@) + terms_from(s@, 0) =~= split_terms(s@));
    while i < n
        invariant
            n == s@.len(),
            i <= n,
            i == 0 || i == n || s@[i - 1] == ' ' || s@[i as int] == ' ',
            texts(terms@) + terms_from(s@, i as int) == split_terms(s@),
        decreases n - i,
    {
        if s.get_char(i) == ' ' {
            i = i + 1;
        } else {
            assert(is_term_start(s@, i as int));
            let mut j: usize = i + 1;
            while j < n && s.get_char(j) != ' '
                invariant
                    n == s@.len(),
                    i < j <= n,
                    s@[i as int] != ' ',
                    forall|k: int| i <= k < j ==> s@[k] != ' ',
                    term_end(s@, i as int) == term_end(s@, j as int),
                    terms_from(s@, i + 1) == terms_from(s@, j as int),
                decreases n - j,
            {
                assert(!is_term_start(s@, j as int));
                j = j + 1;
            }
            let term = String::from_str(s.substring_char(i, j));
            let ghost before = terms@;
            terms.push(term);
            proof {
                assert(term@ == s@.subrange(i as int, term_end(s@, i as int)));
                assert(texts(terms@) =~= texts(before) + seq![term@]);
                assert(texts(terms@) + terms_from(s@, j as int) =~= texts(before) + terms_from(
                    s@,
                    i as int,
                ));
            }
            i = j;
        }
    }
    assert(texts(terms@) + terms_from(s@, n as int) =~= texts(terms@));
    terms
}

/// Decides `is_exclusion`.
pub fn term_is_exclusion(term: &str) -> (r: bool)
    ensures
        r == is_exclusion(term@),
{
    term.unicode_len() >= 2 && term.get_char(0) == '-'
}

/// Whether a lower-cased text passes the terms. The exclusion terms are
/// looked at first, then the inclusion terms.
pub fn matches_terms(key: &str, terms: &Vec<String>) -> (pass: bool)
    ensures
        pass == passes(key@, texts(terms@)),
{
    let ghost ts = texts(terms@);
    let mut k: usize = 0;
    while k < terms.len()
        invariant
            k <= terms.len(),
            ts == texts(terms@),
            accepted_by_prefix(key@, ts, true, k as int),
        decreases terms.len() - k,
    {
        let term = terms[k].as_str();
        assert(term@ == ts[k as int]);
        if term_is_exclusion(term) {
            let n: usize = term.unicode_len();
            let named = term.substring_char(1, n);
            assert(named@ =~= term@.skip(1));
            if contains(key, named) {
                assert(!term_accepts(key@, ts[k as int]));
                return false;
            }
        }
        k = k + 1;
    }
    let mut m: usize = 0;
    while m < terms.len()
        invariant
            m <= terms.len(),
            ts == texts(terms@),
            accepted_by_prefix(key@, ts, true, terms.len() as int),
            accepted_by_prefix(key@, ts, false, m as int),
        decreases terms.len() - m,
    {
        let term = terms[m].as_str();
        assert(term@ == ts[m as int]);
        if !term_is_exclusion(term) {
            if !contains(key, term) {
                assert(!term_accepts(key@, ts[m as int]));
                return false;
            }
        }
        m = m + 1;
    }
    assert forall|k: int| 0 <= k < ts.len() implies term_accepts(key@, #[trigger] ts[k]) by {
        if is_exclusion(ts[k]) {
        } else {
        }
    }
    true
}

/// A clone of every item, in order.
pub fn clone_all<T: Clone>(items: &[T]) -> (result: Vec<T>)
    ensures
        is_selection(items@, all_indices(items@.len()), result@),
{
    let mut result: Vec<T> = Vec::new();
    let mut i: usize = 0;
    while i < items.len()
        invariant
            i <= items.len(),
            result.len() == i,
            forall|j: int| 0 <= j < i ==> cloned(items@[j], #[trigger] result@[j]),
        decreases items.len() - i,
    {
        result.push(items[i].clone());
        i = i + 1;
    }
    result
}

/// Keeps the items whose key passes the terms. `keys` holds the lower-cased
/// text of each item; the result holds a clone of each kept item, in the
/// order of the input.
pub fn filter_by_keys<T: Clone>(items: &[T], keys: &Vec<String>, terms: &Vec<String>) -> (result:
    Vec<T>)
    requires
        keys.len() == items.len(),
    ensures
        is_selection(items@, kept_indices(keep_flags(texts(keys@), texts(terms@))), result@),
{
    let ghost keep = keep_flags(texts(keys@), texts(terms@));
    let mut result: Vec<T> = Vec::new();
    let mut i: usize = 0;
    assert(keep.take(0) =~= Seq::<bool>::empty());
    while i < items.len()
        invariant
            i <= items.len(),
            keys.len() == items.len(),
            keep == keep_flags(texts(keys@), texts(terms@)),
            is_selection(items@, kept_indices(keep.take(i as int)), result@),
        decreases items.len() - i,
    {
        let ghost before = kept_indices(keep.take(i as int));
        let ghost old_result = result@;
        assert(keep.take(i + 1).drop_last() =~= keep.take(i as int));
        assert(keep[i as int] == passes(keys@[i as int]@, texts(terms@)));
        if matches_terms(keys[i].as_str(), terms) {
            let item = items[i].clone();
            result.push(item);
            proof {
                let now = kept_indices(keep.take(i + 1));
                assert forall|j: int| 0 <= j < now.len() implies {
                    &&& 0 <= now[j] < items@.len()
                    &&& cloned(items@[now[j]], #[trigger] result@[j])
                } by {
                    if j < before.len() {
                        assert(result@[j] == old_result[j]);
                        assert(now[j] == before[j]);
                    }
                }
            }
        }
        i = i + 1;
    }
    assert(keep.take(items@.len() as int) =~= keep);
    result
}

/// Filters `items` by `query`, case-insensitively, on the text that `mapper`
/// gives for each item.
///
/// A blank query keeps every item. Otherwise the query is trimmed,
/// lower-cased and split into terms, and an item is kept when its
/// lower-cased text passes them. The result holds clones of the kept items
/// in the order of the input. `mapper` is called once per item, and only
/// where the query is not blank.
pub fn filter_human<T: Clone, F: Fn(&T) -> String>(items: &[T], query: &str, mapper: F) -> (result:
    Vec<T>)
    requires
        forall|i: int| 0 <= i < items@.len() ==> call_requires(mapper, (&#[trigger] items@[i],)),
    ensures
        is_blank(query@) ==> is_selection(items@, all_indices(items@.len()), result@),
        !is_blank(query@) ==> exists|outs: Seq<String>|
            #[trigger] projections_of(mapper, items@, outs) && is_selection(
                items@,
                query_keeps(texts(outs), query@),
                result@,
            ),
{
    let trimmed = trim(query);
    if trimmed.unicode_len() == 0 {
        return clone_all(items);
    }
    let needle = to_lowercase(trimmed);
    let terms = split_terms_of(needle.as_str());
    let mut keys: Vec<String> = Vec::new();
    let ghost mut outs: Seq<String> = Seq::empty();
    let mut i: usize = 0;
    while i < items.len()
        invariant
            i <= items.len(),
            keys.len() == i,
            outs.len() == i,
            forall|k: int| 0 <= k < items@.len() ==> call_requires(mapper, (&#[trigger] items@[k],)),
            forall|k: int| 0 <= k < i ==> call_ensures(mapper, (&items@[k],), #[trigger] outs[k]),
            forall|k: int| 0 <= k < i ==> (#[trigger] keys@[k])@ == lowercase_of(outs[k]@),
        decreases items.len() - i,
    {
        let out = mapper(&items[i]);
        keys.push(to_lowercase(out.as_str()));
        proof {
            outs = outs.push(out);
        }
        i = i + 1;
    }
    let result = filter_by_keys(items, &keys, &terms);
    proof {
        assert(texts(keys@) =~= lowered(texts(outs)));
        assert(projections_of(mapper, items@, outs));
    }
    result
}

} // verus!
