//! "Top recommendations": the titles recommended by the most library movies,
//! excluding titles already held.
//!
//! The stored recommendation rows of every movie in the library are pooled.
//! Rows recommending a held title are dropped; the rest are grouped by the
//! recommended title. Each group reads as the column-wise maximum of its rows
//! (text by code point, a present value above an absent one) and is ranked by
//! how many rows it has, then by its vote average (absent last), then by id.

use vstd::prelude::*;

use crate::model::VideoType;
use crate::store::StoredRecommendation;
use crate::text::{clone_opt, seq_lt, str_lt};

verus! {

/// One stored recommendation: the title that recommends and the title
/// recommended.
#[derive(Debug)]
pub struct RecommendationRow {
    pub source_type: VideoType,
    pub source_id: i64,
    pub item: StoredRecommendation,
}

/// A row that counts: recommended by a movie, and not already held.
pub open spec fn eligible(r: RecommendationRow, held: Seq<i64>) -> bool {
    r.source_type == VideoType::Movie && !held.contains(r.item.id)
}

/// How many counting rows recommend `id`.
pub open spec fn hits(rows: Seq<RecommendationRow>, held: Seq<i64>, id: i64) -> nat
    decreases rows.len(),
{
    if rows.len() == 0 {
        0
    } else {
        hits(rows.drop_last(), held, id) + if eligible(rows.last(), held) && rows.last().item.id
            == id {
            1nat
        } else {
            0nat
        }
    }
}

pub open spec fn max_str(a: String, b: String) -> String {
    if seq_lt(a@, b@) {
        b
    } else {
        a
    }
}

/// The larger of two optional texts; an absent value is below any present one.
pub open spec fn max_opt_str(a: Option<String>, b: Option<String>) -> Option<String> {
    match a {
        None => b,
        Some(x) => match b {
            None => Some(x),
            Some(y) => Some(max_str(x, y)),
        },
    }
}

pub open spec fn max_opt_i64(a: Option<i64>, b: Option<i64>) -> Option<i64> {
    match a {
        None => b,
        Some(x) => match b {
            None => Some(x),
            Some(y) => Some(if x < y {
                y
            } else {
                x
            }),
        },
    }
}

pub open spec fn max_opt_bool(a: Option<bool>, b: Option<bool>) -> Option<bool> {
    match a {
        None => b,
        Some(x) => match b {
            None => Some(x),
            Some(y) => Some(x || y),
        },
    }
}

/// The column-wise maximum of two rows recommending the same title.
pub open spec fn max_rec(a: StoredRecommendation, b: StoredRecommendation) -> StoredRecommendation {
    StoredRecommendation {
        id: a.id,
        display_name: max_str(a.display_name, b.display_name),
        poster_path: max_opt_str(a.poster_path, b.poster_path),
        backdrop_path: max_opt_str(a.backdrop_path, b.backdrop_path),
        vote_average: max_opt_i64(a.vote_average, b.vote_average),
        adult: max_opt_bool(a.adult, b.adult),
        rec_type: max_opt_str(a.rec_type, b.rec_type),
        release_date: max_opt_str(a.release_date, b.release_date),
        first_air_date: max_opt_str(a.first_air_date, b.first_air_date),
        age_rating: max_opt_str(a.age_rating, b.age_rating),
    }
}

/// How the group of counting rows recommending `id` reads, if there is one.
pub open spec fn group_rep(rows: Seq<RecommendationRow>, held: Seq<i64>, id: i64) -> Option<
    StoredRecommendation,
>
    decreases rows.len(),
{
    if rows.len() == 0 {
        None
    } else {
        let p = group_rep(rows.drop_last(), held, id);
        let r = rows.last();
        if eligible(r, held) && r.item.id == id {
            match p {
                None => Some(r.item),
                Some(x) => Some(max_rec(x, r.item)),
            }
        } else {
            p
        }
    }
}

/// `a`'s vote ranks above `b`'s: larger, or present where `b`'s is absent.
pub open spec fn vote_above(a: Option<i64>, b: Option<i64>) -> bool {
    match a {
        None => false,
        Some(x) => match b {
            None => true,
            Some(y) => x > y,
        },
    }
}

/// The ranking order: more hits first, then the higher vote, then the lower id.
pub open spec fn ranks_above(ha: nat, a: StoredRecommendation, hb: nat, b: StoredRecommendation) -> bool {
    ||| ha > hb
    ||| ha == hb && vote_above(a.vote_average, b.vote_average)
    ||| ha == hb && a.vote_average == b.vote_average && a.id < b.id
}

/// `a` ranks above `b` among the groups of `rows`.
pub open spec fn outranks(
    rows: Seq<RecommendationRow>,
    held: Seq<i64>,
    a: StoredRecommendation,
    b: StoredRecommendation,
) -> bool {
    ranks_above(hits(rows, held, a.id), a, hits(rows, held, b.id), b)
}

pub proof fn lemma_ranks_above_order(
    ha: nat,
    a: StoredRecommendation,
    hb: nat,
    b: StoredRecommendation,
    hc: nat,
    c: StoredRecommendation,
)
    ensures
        !ranks_above(ha, a, ha, a),
        a.id != b.id ==> (ranks_above(ha, a, hb, b) || ranks_above(hb, b, ha, a)),
        !(ranks_above(ha, a, hb, b) && ranks_above(hb, b, ha, a)),
        ranks_above(ha, a, hb, b) && ranks_above(hb, b, hc, c) ==> ranks_above(ha, a, hc, c),
{
}

proof fn lemma_group_rep_hits(rows: Seq<RecommendationRow>, held: Seq<i64>, id: i64)
    ensures
        (group_rep(rows, held, id) is Some) == (hits(rows, held, id) > 0),
        group_rep(rows, held, id) matches Some(x) ==> x.id == id,
    decreases rows.len(),
{
    if rows.len() > 0 {
        lemma_group_rep_hits(rows.drop_last(), held, id);
    }
}

fn max_string(a: &String, b: &String) -> (r: String)
    ensures
        r == max_str(*a, *b),
{
    if str_lt(a.as_str(), b.as_str()) {
        b.clone()
    } else {
        a.clone()
    }
}

fn max_opt_string(a: &Option<String>, b: &Option<String>) -> (r: Option<String>)
    ensures
        r == max_opt_str(*a, *b),
{
    match a {
        None => clone_opt(b),
        Some(x) => match b {
            None => Some(x.clone()),
            Some(y) => Some(max_string(x, y)),
        },
    }
}

fn max_record(a: &StoredRecommendation, b: &StoredRecommendation) -> (r: StoredRecommendation)
    ensures
        r == max_rec(*a, *b),
{
    StoredRecommendation {
        id: a.id,
        display_name: max_string(&a.display_name, &b.display_name),
        poster_path: max_opt_string(&a.poster_path, &b.poster_path),
        backdrop_path: max_opt_string(&a.backdrop_path, &b.backdrop_path),
        vote_average: match a.vote_average {
            None => b.vote_average,
            Some(x) => match b.vote_average {
                None => Some(x),
                Some(y) => Some(
                    if x < y {
                        y
                    } else {
                        x
                    },
                ),
            },
        },
        adult: match a.adult {
            None => b.adult,
            Some(x) => match b.adult {
                None => Some(x),
                Some(y) => Some(x || y),
            },
        },
        rec_type: max_opt_string(&a.rec_type, &b.rec_type),
        release_date: max_opt_string(&a.release_date, &b.release_date),
        first_air_date: max_opt_string(&a.first_air_date, &b.first_air_date),
        age_rating: max_opt_string(&a.age_rating, &b.age_rating),
    }
}

fn is_held(held: &Vec<i64>, id: i64) -> (r: bool)
    ensures
        r == held@.contains(id),
{
    let mut i: usize = 0;
    while i < held.len()
        invariant
            i <= held@.len(),
            forall|j: int| 0 <= j < i ==> held@[j] != id,
        decreases held@.len() - i,
    {
        if held[i] == id {
            assert(held@[i as int] == id);
            return true;
        }
        i = i + 1;
    }
    false
}

fn ranks_above_exec(ha: u64, a: &StoredRecommendation, hb: u64, b: &StoredRecommendation) -> (r:
    bool)
    ensures
        r == ranks_above(ha as nat, *a, hb as nat, *b),
{
    if ha != hb {
        return ha > hb;
    }
    let vote_higher = match a.vote_average {
        None => false,
        Some(x) => match b.vote_average {
            None => true,
            Some(y) => x > y,
        },
    };
    if vote_higher {
        return true;
    }
    a.vote_average == b.vote_average && a.id < b.id
}

proof fn lemma_distinct_indices_bound(s: Seq<int>, n: int)
    requires
        s.no_duplicates(),
        n >= 0,
        forall|j: int| 0 <= j < s.len() ==> 0 <= #[trigger] s[j] < n,
    ensures
        s.len() <= n,
{
    s.unique_seq_to_set();
    vstd::set_lib::lemma_int_range(0, n);
    assert(s.to_set().subset_of(vstd::set_lib::set_int_range(0, n)));
    vstd::set_lib::lemma_len_subset(s.to_set(), vstd::set_lib::set_int_range(0, n));
}

/// Groups the counting rows by recommended title.
fn group_rows(rows: &Vec<RecommendationRow>, held: &Vec<i64>) -> (r: (
    Vec<StoredRecommendation>,
    Vec<u64>,
))
    ensures
        r.0@.len() == r.1@.len(),
        forall|g: int|
            0 <= g < r.0@.len() ==> group_rep(rows@, held@, #[trigger] r.0@[g].id) == Some(
                r.0@[g],
            ) && r.1@[g] == hits(rows@, held@, r.0@[g].id),
        forall|g: int, h: int| 0 <= g < h < r.0@.len() ==> r.0@[g].id != r.0@[h].id,
        forall|id: i64|
            #[trigger] group_rep(rows@, held@, id) is Some ==> exists|g: int|
                0 <= g < r.0@.len() && r.0@[g].id == id,
{
    let mut reps: Vec<StoredRecommendation> = Vec::new();
    let mut counts: Vec<u64> = Vec::new();
    let mut i: usize = 0;
    assert(rows@.len() == rows.len());
    while i < rows.len()
        invariant
            i <= rows@.len(),
            rows@.len() <= usize::MAX,
            reps@.len() == counts@.len(),
            forall|g: int|
                0 <= g < reps@.len() ==> group_rep(rows@.take(i as int), held@, #[trigger] reps@[g].id)
                    == Some(reps@[g]) && counts@[g] == hits(
                    rows@.take(i as int),
                    held@,
                    reps@[g].id,
                ),
            forall|g: int| 0 <= g < counts@.len() ==> #[trigger] counts@[g] <= i,
            forall|g: int, h: int| 0 <= g < h < reps@.len() ==> reps@[g].id != reps@[h].id,
            forall|id: i64|
                #[trigger] group_rep(rows@.take(i as int), held@, id) is Some ==> exists|g: int|
                    0 <= g < reps@.len() && reps@[g].id == id,
        decreases rows@.len() - i,
    {
        let ghost pre = rows@.take(i as int);
        let ghost post = rows@.take(i + 1);
        assert(post.drop_last() =~= pre);
        assert(post.last() == rows@[i as int]);
        let row = &rows[i];
        let counts_row = row.source_type == VideoType::Movie && !is_held(held, row.item.id);
        if counts_row {
            let id = row.item.id;
            let mut g: usize = 0;
            while g < reps.len() && reps[g].id != id
                invariant
                    g <= reps@.len(),
                    forall|k: int| 0 <= k < g ==> reps@[k].id != id,
                decreases reps@.len() - g,
            {
                g = g + 1;
            }
            if g < reps.len() {
                let merged = max_record(&reps[g], &row.item);
                let c = counts[g];
                let ghost old_reps = reps@;
                let ghost old_counts = counts@;
                reps.set(g, merged);
                counts.set(g, c + 1);
                proof {
                    assert forall|k: int|
                        0 <= k < reps@.len() implies group_rep(post, held@, #[trigger] reps@[k].id)
                        == Some(reps@[k]) && counts@[k] == hits(post, held@, reps@[k].id) by {
                        if k != g {
                            assert(reps@[k] == old_reps[k]);
                            assert(counts@[k] == old_counts[k]);
                        }
                    }
                    assert forall|k: int| 0 <= k < counts@.len() implies #[trigger] counts@[k]
                        <= i + 1 by {
                        if k != g {
                            assert(counts@[k] == old_counts[k]);
                        }
                    }
                    assert forall|x: i64| #[trigger]
                        group_rep(post, held@, x) is Some implies exists|k: int|
                            0 <= k < reps@.len() && reps@[k].id == x by {
                        if x != id {
                            assert(group_rep(pre, held@, x) is Some);
                            let k = choose|k: int| 0 <= k < old_reps.len() && old_reps[k].id == x;
                            assert(k != g);
                            assert(reps@[k] == old_reps[k]);
                            assert(reps@[k].id == x);
                        } else {
                            assert(reps@[g as int].id == x);
                        }
                    }
                }
            } else {
                let ghost old_reps = reps@;
                let ghost old_counts = counts@;
                proof {
                    lemma_group_rep_hits(pre, held@, id);
                    if group_rep(pre, held@, id) is Some {
                        let k = choose|k: int| 0 <= k < old_reps.len() && old_reps[k].id == id;
                        assert(false);
                    }
                }
                reps.push(row.item.clone());
                counts.push(1);
                proof {
                    assert forall|k: int|
                        0 <= k < reps@.len() implies group_rep(post, held@, #[trigger] reps@[k].id)
                        == Some(reps@[k]) && counts@[k] == hits(post, held@, reps@[k].id) by {
                        if k < old_reps.len() {
                            assert(reps@[k] == old_reps[k]);
                            assert(counts@[k] == old_counts[k]);
                        }
                    }
                    assert forall|x: i64| #[trigger]
                        group_rep(post, held@, x) is Some implies exists|k: int|
                            0 <= k < reps@.len() && reps@[k].id == x by {
                        if x != id {
                            assert(group_rep(pre, held@, x) is Some);
                            let k = choose|k: int| 0 <= k < old_reps.len() && old_reps[k].id == x;
                            assert(reps@[k] == old_reps[k]);
                            assert(reps@[k].id == x);
                        } else {
                            assert(reps@[old_reps.len() as int].id == x);
                        }
                    }
                }
            }
        } else {
            proof {
                assert forall|x: i64| group_rep(post, held@, x) == group_rep(pre, held@, x) by {}
                assert forall|x: i64| hits(post, held@, x) == hits(pre, held@, x) by {}
            }
        }
        i = i + 1;
    }
    assert(rows@.take(i as int) =~= rows@);
    (reps, counts)
}

/// The `limit` highest-ranked groups, best first, each read as the
/// column-wise maximum of its rows. A negative limit means no limit.
pub fn top_recommendations(rows: &Vec<RecommendationRow>, held: &Vec<i64>, limit: i64) -> (r: Vec<
    StoredRecommendation,
>)
    ensures
        forall|i: int|
            0 <= i < r@.len() ==> group_rep(rows@, held@, #[trigger] r@[i].id) == Some(r@[i]),
        forall|i: int, j: int|
            0 <= i < j < r@.len() ==> outranks(rows@, held@, #[trigger] r@[i], #[trigger] r@[j]),
        limit >= 0 ==> r@.len() <= limit,
        forall|id: i64|
            #[trigger] group_rep(rows@, held@, id) is Some && !(exists|i: int|
                0 <= i < r@.len() && r@[i].id == id) ==> limit >= 0 && r@.len() == limit && forall|
                i: int,
            |
                0 <= i < r@.len() ==> outranks(
                    rows@,
                    held@,
                    #[trigger] r@[i],
                    group_rep(rows@, held@, id)->0,
                ),
{
    let (reps, counts) = group_rows(rows, held);
    let n = reps.len();
    let mut chosen: Vec<bool> = Vec::new();
    let mut k: usize = 0;
    while k < n
        invariant
            k <= n,
            chosen@.len() == k,
            forall|g: int| 0 <= g < k ==> !chosen@[g],
        decreases n - k,
    {
        chosen.push(false);
        k = k + 1;
    }
    let ghost rs = rows@;
    let ghost hs = held@;
    let mut out: Vec<StoredRecommendation> = Vec::new();
    let ghost mut sel: Seq<int> = Seq::empty();
    loop
        invariant
            n == reps@.len(),
            reps@.len() == counts@.len(),
            chosen@.len() == n,
            rs == rows@,
            hs == held@,
            forall|g: int|
                0 <= g < reps@.len() ==> group_rep(rs, hs, #[trigger] reps@[g].id) == Some(reps@[g])
                    && counts@[g] == hits(rs, hs, reps@[g].id),
            forall|g: int, h: int| 0 <= g < h < reps@.len() ==> reps@[g].id != reps@[h].id,
            out@.len() == sel.len(),
            out@.len() <= n,
            sel.no_duplicates(),
            limit >= 0 ==> out@.len() <= limit,
            forall|j: int| 0 <= j < sel.len() ==> 0 <= #[trigger] sel[j] < n,
            forall|j: int| 0 <= j < sel.len() ==> #[trigger] out@[j] == reps@[sel[j]],
            forall|g: int|
                0 <= g < n ==> (#[trigger] chosen@[g] <==> exists|j: int|
                    0 <= j < sel.len() && sel[j] == g),
            forall|i: int, j: int|
                0 <= i < j < out@.len() ==> outranks(rs, hs, #[trigger] out@[i], #[trigger] out@[j]),
            forall|g: int, j: int|
                0 <= g < n && !chosen@[g] && 0 <= j < out@.len() ==> outranks(
                    rs,
                    hs,
                    #[trigger] out@[j],
                    #[trigger] reps@[g],
                ),
            forall|id: i64|
                #[trigger] group_rep(rs, hs, id) is Some ==> exists|g: int|
                    0 <= g < reps@.len() && reps@[g].id == id,
        ensures
            forall|g: int|
                0 <= g < n && !chosen@[g] ==> limit >= 0 && out@.len() == limit,
        decreases n - out@.len(),
    {
        if limit >= 0 && out.len() as i64 >= limit {
            proof {
                assert(out@.len() == limit);
            }
            break;
        }
        let mut best: Option<usize> = None;
        let mut g: usize = 0;
        while g < n
            invariant
                n == reps@.len(),
                reps@.len() == counts@.len(),
                chosen@.len() == n,
                g <= n,
                forall|x: int, y: int| 0 <= x < y < reps@.len() ==> reps@[x].id != reps@[y].id,
                best matches Some(b) ==> b < n && !chosen@[b as int],
                forall|h: int|
                    0 <= h < g && !chosen@[h] ==> best is Some && (h == best->0 || ranks_above(
                        counts@[best->0 as int] as nat,
                        reps@[best->0 as int],
                        counts@[h] as nat,
                        reps@[h],
                    )),
            decreases n - g,
        {
            if !chosen[g] {
                match best {
                    None => {
                        best = Some(g);
                    },
                    Some(b) => {
                        if ranks_above_exec(counts[g], &reps[g], counts[b], &reps[b]) {
                            proof {
                                assert forall|h: int| 0 <= h < g && !chosen@[h] implies ranks_above(
                                    counts@[g as int] as nat,
                                    reps@[g as int],
                                    counts@[h] as nat,
                                    reps@[h],
                                ) by {
                                    if h != b {
                                        lemma_ranks_above_order(
                                            counts@[g as int] as nat,
                                            reps@[g as int],
                                            counts@[b as int] as nat,
                                            reps@[b as int],
                                            counts@[h] as nat,
                                            reps@[h],
                                        );
                                    }
                                }
                            }
                            best = Some(g);
                        } else {
                            proof {
                                lemma_ranks_above_order(
                                    counts@[b as int] as nat,
                                    reps@[b as int],
                                    counts@[g as int] as nat,
                                    reps@[g as int],
                                    counts@[b as int] as nat,
                                    reps@[b as int],
                                );
                            }
                        }
                    },
                }
            }
            g = g + 1;
        }
        match best {
            None => {
                break;
            },
            Some(b) => {
                let ghost old_out = out@;
                let ghost old_chosen = chosen@;
                out.push(reps[b].clone());
                chosen.set(b, true);
                proof {
                    let old_sel = sel;
                    if exists|j: int| 0 <= j < old_sel.len() && old_sel[j] == b as int {
                        assert(old_chosen[b as int]);
                    }
                    sel = sel.push(b as int);
                    assert(sel.no_duplicates()) by {
                        assert forall|x: int, y: int|
                            0 <= x < sel.len() && 0 <= y < sel.len() && x != y implies sel[x]
                            != sel[y] by {
                            if x < old_sel.len() && y < old_sel.len() {
                                assert(sel[x] == old_sel[x] && sel[y] == old_sel[y]);
                            } else if x < old_sel.len() {
                                assert(sel[x] == old_sel[x]);
                            } else if y < old_sel.len() {
                                assert(sel[y] == old_sel[y]);
                            }
                        }
                    }
                    lemma_distinct_indices_bound(sel, n as int);
                    assert forall|x: int|
                        0 <= x < n implies (#[trigger] chosen@[x] <==> exists|j: int|
                            0 <= j < sel.len() && sel[j] == x) by {
                        if x != b {
                            assert(chosen@[x] == old_chosen[x]);
                            if exists|j: int| 0 <= j < sel.len() && sel[j] == x {
                                let j = choose|j: int| 0 <= j < sel.len() && sel[j] == x;
                                assert(j < sel.len() - 1);
                                assert(old_sel[j] == x);
                            }
                            if exists|j: int| 0 <= j < old_sel.len() && old_sel[j] == x {
                                let j = choose|j: int| 0 <= j < old_sel.len() && old_sel[j] == x;
                                assert(sel[j] == x);
                            }
                        } else {
                            assert(sel[sel.len() - 1] == x);
                        }
                    }
                    assert forall|j: int| 0 <= j < sel.len() implies #[trigger] out@[j] == reps@[sel[j]] by {
                        if j < sel.len() - 1 {
                            assert(out@[j] == old_out[j]);
                        }
                    }
                    assert forall|x: int, y: int|
                        0 <= x < y < out@.len() implies outranks(
                        rs,
                        hs,
                        #[trigger] out@[x],
                        #[trigger] out@[y],
                    ) by {
                        assert(out@[x] == old_out[x]);
                        if y < old_out.len() {
                            assert(out@[y] == old_out[y]);
                        } else {
                            assert(out@[y] == reps@[b as int]);
                            assert(!old_chosen[b as int]);
                        }
                    }
                    assert forall|h: int, j: int|
                        0 <= h < n && !chosen@[h] && 0 <= j < out@.len() implies outranks(
                        rs,
                        hs,
                        #[trigger] out@[j],
                        #[trigger] reps@[h],
                    ) by {
                        assert(h != b);
                        assert(!old_chosen[h]);
                        if j < old_out.len() {
                            assert(out@[j] == old_out[j]);
                        } else {
                            assert(out@[j] == reps@[b as int]);
                        }
                    }
                }
            },
        }
    }
    proof {
        assert forall|i: int| 0 <= i < out@.len() implies group_rep(
            rows@,
            held@,
            #[trigger] out@[i].id,
        ) == Some(out@[i]) by {
            assert(out@[i] == reps@[sel[i]]);
        }
        assert forall|id: i64|
            #[trigger] group_rep(rows@, held@, id) is Some && !(exists|i: int|
                0 <= i < out@.len() && out@[i].id == id) implies limit >= 0 && out@.len() == limit
            && forall|i: int|
            0 <= i < out@.len() ==> outranks(
                rows@,
                held@,
                #[trigger] out@[i],
                group_rep(rows@, held@, id)->0,
            ) by {
            let g = choose|g: int| 0 <= g < reps@.len() && reps@[g].id == id;
            if chosen@[g] {
                let j = choose|j: int| 0 <= j < sel.len() && sel[j] == g;
                assert(out@[j].id == id);
            }
            assert(reps@[g] == group_rep(rows@, held@, id)->0);
        }
    }
    out
}

proof fn lemma_held_has_no_group(rows: Seq<RecommendationRow>, held: Seq<i64>, id: i64)
    requires
        held.contains(id),
    ensures
        group_rep(rows, held, id) is None,
        hits(rows, held, id) == 0,
    decreases rows.len(),
{
    if rows.len() > 0 {
        lemma_held_has_no_group(rows.drop_last(), held, id);
    }
}

/// A title the library already holds is never a top recommendation, however
/// often it is recommended: every listed title is recommended by some movie
/// of the library and is not held.
pub proof fn law_top_excludes_held(rows: Seq<RecommendationRow>, held: Seq<i64>, r: Seq<StoredRecommendation>)
    requires
        forall|i: int| 0 <= i < r.len() ==> group_rep(rows, held, #[trigger] r[i].id) == Some(r[i]),
    ensures
        forall|i: int| 0 <= i < r.len() ==> !held.contains(#[trigger] r[i].id),
        forall|i: int| 0 <= i < r.len() ==> hits(rows, held, #[trigger] r[i].id) > 0,
{
    assert forall|i: int| 0 <= i < r.len() implies !held.contains(#[trigger] r[i].id) by {
        if held.contains(r[i].id) {
            lemma_held_has_no_group(rows, held, r[i].id);
        }
    }
    assert forall|i: int| 0 <= i < r.len() implies hits(rows, held, #[trigger] r[i].id) > 0 by {
        lemma_group_rep_hits(rows, held, r[i].id);
    }
}

} // verus!
