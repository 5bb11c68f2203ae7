//! The orders in which stored lists are read back: tags by text, genres and
//! networks by name, watch providers by display priority and then name. Each
//! is a stable insertion order over a strict order, and reading a list in it
//! gives a sorted reordering of what was stored.

use vstd::prelude::*;

use crate::model::{Genre, Network, WatchProvider};
use crate::text::{holds_str, lemma_seq_lt_total, lemma_seq_lt_transitive, seq_lt, str_lt};

verus! {

/// `lt` is a strict order: never `a < a`, and `a < b < c` gives `a < c`.
pub open spec fn strict_order<A>(lt: spec_fn(A, A) -> bool) -> bool {
    &&& forall|a: A| !(#[trigger] lt(a, a))
    &&& forall|a: A, b: A, c: A| #[trigger] lt(a, b) && #[trigger] lt(b, c) ==> lt(a, c)
}

/// `x` placed into `s` after every element it is not before.
pub open spec fn insert_ordered<A>(s: Seq<A>, x: A, lt: spec_fn(A, A) -> bool) -> Seq<A>
    decreases s.len(),
{
    if s.len() == 0 {
        seq![x]
    } else if lt(x, s[0]) {
        seq![x] + s
    } else {
        seq![s[0]] + insert_ordered(s.drop_first(), x, lt)
    }
}

/// `s` in the order `lt`, ties keeping their order.
pub open spec fn ordered<A>(s: Seq<A>, lt: spec_fn(A, A) -> bool) -> Seq<A>
    decreases s.len(),
{
    if s.len() == 0 {
        Seq::empty()
    } else {
        insert_ordered(ordered(s.drop_last(), lt), s.last(), lt)
    }
}

/// No element of `s` comes before an earlier one.
pub open spec fn sorted_by<A>(s: Seq<A>, lt: spec_fn(A, A) -> bool) -> bool {
    forall|i: int, j: int| 0 <= i < j < s.len() ==> !lt(#[trigger] s[j], #[trigger] s[i])
}

/// Appending to a list reads back as inserting into the ordered list.
pub proof fn lemma_ordered_push<A>(s: Seq<A>, x: A, lt: spec_fn(A, A) -> bool)
    ensures
        ordered(s.push(x), lt) == insert_ordered(ordered(s, lt), x, lt),
{
    assert(s.push(x).drop_last() =~= s);
}

proof fn lemma_insert_ordered_at<A>(s: Seq<A>, x: A, j: int, lt: spec_fn(A, A) -> bool)
    requires
        0 <= j <= s.len(),
        forall|k: int| 0 <= k < j ==> !lt(x, #[trigger] s[k]),
        j < s.len() ==> lt(x, s[j]),
    ensures
        insert_ordered(s, x, lt) == s.insert(j, x),
    decreases s.len(),
{
    if s.len() == 0 {
        assert(s.insert(j, x) =~= seq![x]);
    } else if j == 0 {
        assert(s.insert(0, x) =~= seq![x] + s);
    } else {
        let t = s.drop_first();
        assert forall|k: int| 0 <= k < j - 1 implies !lt(x, #[trigger] t[k]) by {
            assert(t[k] == s[k + 1]);
        }
        if j - 1 < t.len() {
            assert(t[j - 1] == s[j]);
        }
        lemma_insert_ordered_at(t, x, j - 1, lt);
        assert(seq![s[0]] + t.insert(j - 1, x) =~= s.insert(j, x));
    }
}

proof fn lemma_insert_ordered_sorted<A>(s: Seq<A>, x: A, lt: spec_fn(A, A) -> bool)
    requires
        strict_order(lt),
        sorted_by(s, lt),
    ensures
        ({
            let t = insert_ordered(s, x, lt);
            &&& t.to_multiset() == s.to_multiset().insert(x)
            &&& sorted_by(t, lt)
        }),
    decreases s.len(),
{
    broadcast use vstd::seq_lib::group_to_multiset_ensures;
    let t = insert_ordered(s, x, lt);
    if s.len() == 0 {
        assert(t =~= seq![x]);
        assert(s.to_multiset() =~= vstd::multiset::Multiset::empty());
        assert(seq![x] =~= Seq::<A>::empty().push(x));
    } else if lt(x, s[0]) {
        assert(t == seq![x] + s);
        assert forall|i: int, j: int| 0 <= i < j < t.len() implies !lt(#[trigger] t[j], #[trigger] t[i]) by {
            if i == 0 {
                assert(t[j] == s[j - 1]);
                let y = s[j - 1];
                if lt(y, x) {
                    assert(lt(y, s[0]));
                    if j - 1 > 0 {
                        assert(!lt(s[j - 1], s[0]));
                    }
                }
            } else {
                assert(t[i] == s[i - 1] && t[j] == s[j - 1]);
            }
        }
        vstd::seq_lib::lemma_multiset_commutative(seq![x], s);
        assert(seq![x] =~= Seq::<A>::empty().push(x));
    } else {
        let d = s.drop_first();
        assert forall|i: int, j: int| 0 <= i < j < d.len() implies !lt(#[trigger] d[j], #[trigger] d[i]) by {
            assert(d[i] == s[i + 1] && d[j] == s[j + 1]);
        }
        lemma_insert_ordered_sorted(d, x, lt);
        let u = insert_ordered(d, x, lt);
        assert(t == seq![s[0]] + u);
        assert forall|i: int, j: int| 0 <= i < j < t.len() implies !lt(#[trigger] t[j], #[trigger] t[i]) by {
            if i == 0 {
                assert(t[j] == u[j - 1]);
                assert(u.to_multiset().contains(u[j - 1]));
                if u[j - 1] != x {
                    assert(d.to_multiset().contains(u[j - 1]));
                    let k = choose|k: int| 0 <= k < d.len() && d[k] == u[j - 1];
                    assert(s[k + 1] == d[k]);
                    assert(!lt(s[k + 1], s[0]));
                }
            } else {
                assert(t[i] == u[i - 1] && t[j] == u[j - 1]);
            }
        }
        vstd::seq_lib::lemma_multiset_commutative(seq![s[0]], u);
        vstd::seq_lib::lemma_multiset_commutative(seq![s[0]], d);
        assert(s =~= seq![s[0]] + d);
    }
}

/// Reading a list in a strict order gives it sorted, with nothing lost,
/// duplicated or added: a reordering of the stored list.
pub proof fn law_ordered<A>(s: Seq<A>, lt: spec_fn(A, A) -> bool)
    requires
        strict_order(lt),
    ensures
        ordered(s, lt).to_multiset() == s.to_multiset(),
        sorted_by(ordered(s, lt), lt),
    decreases s.len(),
{
    broadcast use vstd::seq_lib::group_to_multiset_ensures;
    if s.len() == 0 {
        assert(s.to_multiset() =~= vstd::multiset::Multiset::empty());
        assert(ordered(s, lt).to_multiset() =~= vstd::multiset::Multiset::empty());
    } else {
        law_ordered(s.drop_last(), lt);
        lemma_insert_ordered_sorted(ordered(s.drop_last(), lt), s.last(), lt);
        assert(s =~= s.drop_last().push(s.last()));
    }
}

/// A reordering holds the same texts.
pub proof fn lemma_holds_str_reordered(a: Seq<String>, b: Seq<String>, t: Seq<char>)
    requires
        a.to_multiset() == b.to_multiset(),
    ensures
        holds_str(a, t) == holds_str(b, t),
{
    broadcast use vstd::seq_lib::group_to_multiset_ensures;
    if holds_str(a, t) {
        let i = choose|i: int| 0 <= i < a.len() && #[trigger] a[i]@ == t;
        assert(a.to_multiset().contains(a[i]));
        assert(b.contains(a[i]));
        let j = choose|j: int| 0 <= j < b.len() && b[j] == a[i];
        assert(b[j]@ == t);
    }
    if holds_str(b, t) {
        let i = choose|i: int| 0 <= i < b.len() && #[trigger] b[i]@ == t;
        assert(b.to_multiset().contains(b[i]));
        assert(a.contains(b[i]));
        let j = choose|j: int| 0 <= j < a.len() && a[j] == b[i];
        assert(a[j]@ == t);
    }
}

// ---------------------------------------------------------------------------
// The orders

/// Tags by their text, code point by code point (SQLite's binary collation).
pub open spec fn tag_order() -> spec_fn(String, String) -> bool {
    |a: String, b: String| seq_lt(a@, b@)
}

/// Genres by name.
pub open spec fn genre_order() -> spec_fn(Genre, Genre) -> bool {
    |a: Genre, b: Genre| seq_lt(a.name@, b.name@)
}

/// Networks by name.
pub open spec fn network_order() -> spec_fn(Network, Network) -> bool {
    |a: Network, b: Network| seq_lt(a.name@, b.name@)
}

/// Display priorities ascending, a missing priority first (as SQLite sorts
/// `NULL`).
pub open spec fn priority_lt(a: Option<i64>, b: Option<i64>) -> bool {
    match (a, b) {
        (None, Some(_)) => true,
        (Some(x), Some(y)) => x < y,
        _ => false,
    }
}

/// Watch providers by display priority, then by name.
pub open spec fn provider_order() -> spec_fn(WatchProvider, WatchProvider) -> bool {
    |a: WatchProvider, b: WatchProvider|
        priority_lt(a.display_priority, b.display_priority) || (a.display_priority == b.display_priority
            && seq_lt(a.provider_name@, b.provider_name@))
}

proof fn lemma_seq_lt_strict()
    ensures
        forall|a: Seq<char>| !(#[trigger] seq_lt(a, a)),
        forall|a: Seq<char>, b: Seq<char>, c: Seq<char>|
            #[trigger] seq_lt(a, b) && #[trigger] seq_lt(b, c) ==> seq_lt(a, c),
{
    assert forall|a: Seq<char>| !(#[trigger] seq_lt(a, a)) by {
        lemma_seq_lt_total(a, a);
    }
    assert forall|a: Seq<char>, b: Seq<char>, c: Seq<char>|
        #[trigger] seq_lt(a, b) && #[trigger] seq_lt(b, c) implies seq_lt(a, c) by {
        lemma_seq_lt_transitive(a, b, c);
    }
}

/// Each of the read orders is a strict order.
pub proof fn lemma_orders_strict()
    ensures
        strict_order(tag_order()),
        strict_order(genre_order()),
        strict_order(network_order()),
        strict_order(provider_order()),
{
    lemma_seq_lt_strict();
    assert forall|a: String, b: String, c: String|
        #[trigger] tag_order()(a, b) && #[trigger] tag_order()(b, c) implies tag_order()(a, c) by {
        assert(seq_lt(a@, b@) && seq_lt(b@, c@));
    }
    assert forall|a: Genre, b: Genre, c: Genre|
        #[trigger] genre_order()(a, b) && #[trigger] genre_order()(b, c) implies genre_order()(a, c) by {
        assert(seq_lt(a.name@, b.name@) && seq_lt(b.name@, c.name@));
    }
    assert forall|a: Network, b: Network, c: Network|
        #[trigger] network_order()(a, b) && #[trigger] network_order()(b, c) implies network_order()(a, c) by {
        assert(seq_lt(a.name@, b.name@) && seq_lt(b.name@, c.name@));
    }
    assert forall|a: WatchProvider, b: WatchProvider, c: WatchProvider|
        #[trigger] provider_order()(a, b) && #[trigger] provider_order()(b, c) implies provider_order()(
        a,
        c,
    ) by {
        if a.display_priority == b.display_priority && b.display_priority == c.display_priority {
            assert(seq_lt(a.provider_name@, b.provider_name@) && seq_lt(b.provider_name@, c.provider_name@));
        }
    }
}

// ---------------------------------------------------------------------------
// Insertion

/// Inserts `t` into `v` after every tag it does not sort before.
pub fn insert_tag(v: &mut Vec<String>, t: String)
    ensures
        final(v)@ == insert_ordered(old(v)@, t, tag_order()),
{
    let mut j: usize = 0;
    while j < v.len() && !str_lt(t.as_str(), v[j].as_str())
        invariant
            j <= v@.len(),
            v@ == old(v)@,
            forall|k: int| 0 <= k < j ==> !(tag_order())(t, #[trigger] v@[k]),
        decreases v@.len() - j,
    {
        j = j + 1;
    }
    proof {
        lemma_insert_ordered_at(v@, t, j as int, tag_order());
    }
    v.insert(j, t);
}

/// Inserts `g` into `v` after every genre it does not sort before.
pub fn insert_genre(v: &mut Vec<Genre>, g: Genre)
    ensures
        final(v)@ == insert_ordered(old(v)@, g, genre_order()),
{
    let mut j: usize = 0;
    while j < v.len() && !str_lt(g.name.as_str(), v[j].name.as_str())
        invariant
            j <= v@.len(),
            v@ == old(v)@,
            forall|k: int| 0 <= k < j ==> !(genre_order())(g, #[trigger] v@[k]),
        decreases v@.len() - j,
    {
        j = j + 1;
    }
    proof {
        lemma_insert_ordered_at(v@, g, j as int, genre_order());
    }
    v.insert(j, g);
}

/// Inserts `n` into `v` after every network it does not sort before.
pub fn insert_network(v: &mut Vec<Network>, n: Network)
    ensures
        final(v)@ == insert_ordered(old(v)@, n, network_order()),
{
    let mut j: usize = 0;
    while j < v.len() && !str_lt(n.name.as_str(), v[j].name.as_str())
        invariant
            j <= v@.len(),
            v@ == old(v)@,
            forall|k: int| 0 <= k < j ==> !(network_order())(n, #[trigger] v@[k]),
        decreases v@.len() - j,
    {
        j = j + 1;
    }
    proof {
        lemma_insert_ordered_at(v@, n, j as int, network_order());
    }
    v.insert(j, n);
}

fn provider_before(a: &WatchProvider, b: &WatchProvider) -> (r: bool)
    ensures
        r == (provider_order())(*a, *b),
{
    match (a.display_priority, b.display_priority) {
        (None, Some(_)) => true,
        (Some(x), Some(y)) => if x < y {
            true
        } else if x == y {
            str_lt(a.provider_name.as_str(), b.provider_name.as_str())
        } else {
            false
        },
        (None, None) => str_lt(a.provider_name.as_str(), b.provider_name.as_str()),
        (Some(_), None) => false,
    }
}

/// Inserts `p` into `v` after every provider it does not sort before.
pub fn insert_provider(v: &mut Vec<WatchProvider>, p: WatchProvider)
    ensures
        final(v)@ == insert_ordered(old(v)@, p, provider_order()),
{
    let mut j: usize = 0;
    while j < v.len() && !provider_before(&p, &v[j])
        invariant
            j <= v@.len(),
            v@ == old(v)@,
            forall|k: int| 0 <= k < j ==> !(provider_order())(p, #[trigger] v@[k]),
        decreases v@.len() - j,
    {
        j = j + 1;
    }
    proof {
        lemma_insert_ordered_at(v@, p, j as int, provider_order());
    }
    v.insert(j, p);
}

} // verus!
