//! The two orders the API lists titles in: search hits by popularity, most
//! popular first, and the `/videos` listing by name, ignoring case. Both are
//! stable: titles that tie keep the order they came in.

use std::collections::HashMap;

use vstd::prelude::*;
use vstd::string::*;

use crate::dto::{brief_name, TmdbMovieBrief};
use crate::error::AppError;
use crate::model::{SearchResponse, SearchResult, VideoBase, VideoType};
use crate::service::{kept, truncate_to};
use crate::store::{local_for, LocalState};
use crate::text::{clone_opt, clone_strings, lemma_seq_lt_total, lemma_seq_lt_transitive, seq_lt, str_lt, trim, trim_spec};

verus! {

broadcast use vstd::std_specs::hash::group_hash_axioms;

// ---------------------------------------------------------------------------
// Popularity

/// The position of an `f32` in IEEE 754 total order, from its bit pattern:
/// the order `f32::total_cmp` compares by.
pub open spec fn total_order_key(bits: u32) -> int {
    if bits < 0x8000_0000 {
        bits as int
    } else {
        0x7fff_ffff - bits as int
    }
}

/// A hit's popularity as an order key; a hit without a score counts as `0.0`.
pub open spec fn popularity_key(r: SearchResult) -> int {
    match r.base.popularity {
        Some(b) => total_order_key(b),
        None => 0,
    }
}

fn popularity_key_of(r: &SearchResult) -> (k: i64)
    ensures
        k == popularity_key(*r),
{
    match r.base.popularity {
        Some(b) => if b < 0x8000_0000 {
            b as i64
        } else {
            0x7fff_ffff - b as i64
        },
        None => 0,
    }
}

/// `x` placed into `s` after every hit at least as popular as it.
pub open spec fn insert_by_popularity(s: Seq<SearchResult>, x: SearchResult) -> Seq<SearchResult>
    decreases s.len(),
{
    if s.len() == 0 {
        seq![x]
    } else if popularity_key(s[0]) < popularity_key(x) {
        seq![x] + s
    } else {
        seq![s[0]] + insert_by_popularity(s.drop_first(), x)
    }
}

/// The hits ordered by popularity, most popular first; ties keep their order.
pub open spec fn by_popularity(s: Seq<SearchResult>) -> Seq<SearchResult>
    decreases s.len(),
{
    if s.len() == 0 {
        Seq::empty()
    } else {
        insert_by_popularity(by_popularity(s.drop_last()), s.last())
    }
}

proof fn lemma_insert_by_popularity_at(s: Seq<SearchResult>, x: SearchResult, j: int)
    requires
        0 <= j <= s.len(),
        forall|k: int| 0 <= k < j ==> popularity_key(#[trigger] s[k]) >= popularity_key(x),
        j < s.len() ==> popularity_key(s[j]) < popularity_key(x),
    ensures
        insert_by_popularity(s, x) == s.insert(j, x),
    decreases s.len(),
{
    if s.len() == 0 {
        assert(s.insert(j, x) =~= seq![x]);
    } else if j == 0 {
        assert(s.insert(0, x) =~= seq![x] + s);
    } else {
        let t = s.drop_first();
        assert forall|k: int| 0 <= k < j - 1 implies popularity_key(#[trigger] t[k]) >= popularity_key(x) by {
            assert(t[k] == s[k + 1]);
        }
        if j - 1 < t.len() {
            assert(t[j - 1] == s[j]);
        }
        lemma_insert_by_popularity_at(t, x, j - 1);
        assert(seq![s[0]] + t.insert(j - 1, x) =~= s.insert(j, x));
    }
}

/// Orders hits by popularity, most popular first, keeping ties in order.
pub fn sort_by_popularity(items: Vec<SearchResult>) -> (r: Vec<SearchResult>)
    ensures
        r@ == by_popularity(items@),
{
    let mut rest = items;
    let ghost all = rest@;
    let n: usize = rest.len();
    let mut out: Vec<SearchResult> = Vec::new();
    let mut taken: usize = 0;
    while rest.len() > 0
        invariant
            taken + rest@.len() == all.len(),
            all.len() == n,
            rest@ == all.skip(taken as int),
            out@ == by_popularity(all.take(taken as int)),
        decreases rest@.len(),
    {
        let x = rest.remove(0);
        proof {
            assert(x == all[taken as int]);
            assert(rest@ =~= all.skip(taken + 1));
            assert(all.take(taken + 1).drop_last() =~= all.take(taken as int));
            assert(all.take(taken + 1).last() == x);
        }
        let kx = popularity_key_of(&x);
        let mut j: usize = 0;
        while j < out.len() && popularity_key_of(&out[j]) >= kx
            invariant
                j <= out@.len(),
                kx == popularity_key(x),
                forall|k: int| 0 <= k < j ==> popularity_key(#[trigger] out@[k]) >= popularity_key(x),
            decreases out@.len() - j,
        {
            j = j + 1;
        }
        proof {
            lemma_insert_by_popularity_at(out@, x, j as int);
        }
        out.insert(j, x);
        taken = taken + 1;
    }
    proof {
        assert(all.take(taken as int) =~= all);
    }
    out
}

/// A search hit as the API presents it: TMDB's fields, a show's first air
/// date standing in for a missing release date, and the local state the
/// library holds for the title (flags off and no tags when it holds none).
pub open spec fn is_hit_of(r: SearchResult, b: TmdbMovieBrief, kind: VideoType, local: Option<LocalState>) -> bool {
    &&& r.base.id == b.id
    &&& r.base.video_type == kind
    &&& r.base.display_name@ == brief_name(b)
    &&& r.base.poster_path == b.poster_path
    &&& r.base.backdrop_path == b.backdrop_path
    &&& r.base.release_date == (match b.release_date {
        Some(d) => Some(d),
        None => b.first_air_date,
    })
    &&& r.base.overview == b.overview
    &&& r.base.vote_average == b.vote_average
    &&& r.base.vote_count == b.vote_count
    &&& r.base.popularity == b.popularity
    &&& r.base.adult == b.adult
    &&& r.base.season_number is None
    &&& r.base.tv_show_id is None
    &&& r.genre_ids@ == b.genre_ids@
    &&& match local {
        Some(l) => {
            &&& r.base.favorite == l.favorite
            &&& r.base.on_watchlist == l.on_watchlist
            &&& r.base.watched == l.watched
            &&& r.base.tags@ == l.tags@
        },
        None => !r.base.favorite && !r.base.on_watchlist && !r.base.watched && r.base.tags@.len()
            == 0,
    }
}

fn clone_ids(v: &Vec<i64>) -> (r: Vec<i64>)
    ensures
        r@ == v@,
{
    let mut out: Vec<i64> = Vec::new();
    let mut i: usize = 0;
    while i < v.len()
        invariant
            i <= v@.len(),
            out@ == v@.take(i as int),
        decreases v@.len() - i,
    {
        out.push(v[i]);
        i = i + 1;
        assert(out@ =~= v@.take(i as int));
    }
    assert(v@.take(i as int) =~= v@);
    out
}

/// One search hit, decorated with the library's local state for it.
pub fn to_result(brief: &TmdbMovieBrief, kind: VideoType, local: Option<&LocalState>) -> (r: SearchResult)
    ensures
        is_hit_of(r, *brief, kind, match local {
            Some(l) => Some(*l),
            None => None,
        }),
{
    let mut base = VideoBase::default();
    base.id = brief.id;
    base.video_type = kind;
    base.display_name = brief.display_name();
    base.poster_path = clone_opt(&brief.poster_path);
    base.backdrop_path = clone_opt(&brief.backdrop_path);
    base.release_date = match &brief.release_date {
        Some(d) => Some(d.clone()),
        None => clone_opt(&brief.first_air_date),
    };
    base.overview = clone_opt(&brief.overview);
    base.vote_average = brief.vote_average;
    base.vote_count = brief.vote_count;
    base.popularity = brief.popularity;
    base.adult = brief.adult;
    match local {
        Some(l) => {
            base.favorite = l.favorite;
            base.on_watchlist = l.on_watchlist;
            base.watched = l.watched;
            base.tags = clone_strings(&l.tags);
        },
        None => {},
    }
    SearchResult { base, genre_ids: clone_ids(&brief.genre_ids) }
}

/// The hits of both searches before ordering: the movie hits, then the show
/// hits, each decorated with the local state of its own kind.
pub open spec fn are_hits_of(
    c: Seq<SearchResult>,
    movies: Seq<TmdbMovieBrief>,
    shows: Seq<TmdbMovieBrief>,
    movie_locals: Map<i64, LocalState>,
    show_locals: Map<i64, LocalState>,
) -> bool {
    &&& c.len() == movies.len() + shows.len()
    &&& forall|i: int|
        0 <= i < movies.len() ==> is_hit_of(
            #[trigger] c[i],
            movies[i],
            VideoType::Movie,
            local_for(movie_locals, movies[i].id),
        )
    &&& forall|i: int|
        0 <= i < shows.len() ==> is_hit_of(
            #[trigger] c[movies.len() + i],
            shows[i],
            VideoType::Tvshow,
            local_for(show_locals, shows[i].id),
        )
}

fn push_hits(
    out: &mut Vec<SearchResult>,
    briefs: &Vec<TmdbMovieBrief>,
    kind: VideoType,
    locals: &HashMap<i64, LocalState>,
)
    ensures
        final(out)@.len() == old(out)@.len() + briefs@.len(),
        forall|k: int| 0 <= k < old(out)@.len() ==> #[trigger] final(out)@[k] == old(out)@[k],
        forall|i: int|
            0 <= i < briefs@.len() ==> is_hit_of(
                #[trigger] final(out)@[old(out)@.len() + i],
                briefs@[i],
                kind,
                local_for(locals@, briefs@[i].id),
            ),
{
    let ghost start = out@;
    let mut i: usize = 0;
    while i < briefs.len()
        invariant
            i <= briefs@.len(),
            out@.len() == start.len() + i,
            forall|k: int| 0 <= k < start.len() ==> #[trigger] out@[k] == start[k],
            forall|k: int|
                0 <= k < i ==> is_hit_of(
                    #[trigger] out@[start.len() + k],
                    briefs@[k],
                    kind,
                    local_for(locals@, briefs@[k].id),
                ),
        decreases briefs@.len() - i,
    {
        let local = locals.get(&briefs[i].id);
        proof {
            assert((match local {
                Some(l) => Some(*l),
                None => None::<LocalState>,
            }) == local_for(locals@, briefs@[i as int].id));
        }
        out.push(to_result(&briefs[i], kind, local));
        i = i + 1;
    }
}

/// The hits of a movie search and a show search, decorated with local state,
/// movies before shows.
pub fn search_candidates(
    movies: &Vec<TmdbMovieBrief>,
    shows: &Vec<TmdbMovieBrief>,
    movie_locals: &HashMap<i64, LocalState>,
    show_locals: &HashMap<i64, LocalState>,
) -> (r: Vec<SearchResult>)
    ensures
        are_hits_of(r@, movies@, shows@, movie_locals@, show_locals@),
{
    let mut out: Vec<SearchResult> = Vec::new();
    push_hits(&mut out, movies, VideoType::Movie, movie_locals);
    let ghost mid = out@;
    push_hits(&mut out, shows, VideoType::Tvshow, show_locals);
    proof {
        assert forall|i: int| 0 <= i < movies@.len() implies is_hit_of(
            #[trigger] out@[i],
            movies@[i],
            VideoType::Movie,
            local_for(movie_locals@, movies@[i].id),
        ) by {
            assert(out@[i] == mid[i]);
            assert(mid[0 + i] == mid[i]);
        }
    }
    out
}

/// The search response: the hits of both searches, most popular first, ties
/// keeping movies before shows and TMDB's order within each.
pub fn search_results(
    movies: &Vec<TmdbMovieBrief>,
    shows: &Vec<TmdbMovieBrief>,
    movie_locals: &HashMap<i64, LocalState>,
    show_locals: &HashMap<i64, LocalState>,
) -> (r: SearchResponse)
    ensures
        exists|c: Seq<SearchResult>|
            are_hits_of(c, movies@, shows@, movie_locals@, show_locals@) && r.results@
                == by_popularity(c),
{
    let c = search_candidates(movies, shows, movie_locals, show_locals);
    let ghost cv = c@;
    let results = sort_by_popularity(c);
    assert(are_hits_of(cv, movies@, shows@, movie_locals@, show_locals@) && results@ == by_popularity(cv));
    SearchResponse { results }
}

/// The query a search runs with: the trimmed text, or an error when nothing
/// is left.
pub fn search_query(query: &str) -> (r: Result<&str, AppError>)
    ensures
        trim_spec(query@).len() > 0 ==> (r matches Ok(q) && q@ == trim_spec(query@)),
        trim_spec(query@).len() == 0 ==> (r matches Err(AppError::BadRequest(m)) && m@
            == "query must not be blank"@),
{
    let q = trim(query);
    if q.unicode_len() == 0 {
        Err(AppError::BadRequest(String::from_str("query must not be blank")))
    } else {
        Ok(q)
    }
}

/// What the two searches yield: both failing is an error (the movie search's),
/// since then TMDB itself is out of reach; one failing counts as no hits from
/// it.
pub fn search_outcome<T>(movies: Result<Vec<T>, AppError>, shows: Result<Vec<T>, AppError>) -> (r: Result<
    (Vec<T>, Vec<T>),
    AppError,
>)
    ensures
        movies matches Err(e) ==> (shows is Err ==> r == Err::<(Vec<T>, Vec<T>), AppError>(e)),
        (movies is Ok || shows is Ok) ==> (r matches Ok((m, s)) && (movies matches Ok(v) ==> m == v)
            && (movies is Err ==> m@.len() == 0) && (shows matches Ok(v) ==> s == v) && (shows is Err
            ==> s@.len() == 0)),
{
    match (movies, shows) {
        (Err(e), Err(_)) => Err(e),
        (Ok(m), Ok(s)) => Ok((m, s)),
        (Ok(m), Err(_)) => Ok((m, Vec::new())),
        (Err(_), Ok(s)) => Ok((Vec::new(), s)),
    }
}

// ---------------------------------------------------------------------------
// Names

/// `s` lower-cased by Unicode's rules (`str::to_lowercase`).
pub uninterp spec fn lowercase(s: Seq<char>) -> Seq<char>;

/// Lower-cases `s` (`str::to_lowercase`).
#[verifier::external_body]
fn to_lowercase(s: &str) -> (r: String)
    ensures
        r@ == lowercase(s@),
{
    s.to_lowercase()
}

/// A title's sort key in the `/videos` listing: its lower-cased name.
pub open spec fn name_key(b: VideoBase) -> Seq<char> {
    lowercase(b.display_name@)
}

/// `x` placed into `s` after every title whose key is not after its own.
pub open spec fn insert_by_name(s: Seq<VideoBase>, x: VideoBase) -> Seq<VideoBase>
    decreases s.len(),
{
    if s.len() == 0 {
        seq![x]
    } else if seq_lt(name_key(x), name_key(s[0])) {
        seq![x] + s
    } else {
        seq![s[0]] + insert_by_name(s.drop_first(), x)
    }
}

/// The titles ordered by lower-cased name; ties keep their order.
pub open spec fn by_name(s: Seq<VideoBase>) -> Seq<VideoBase>
    decreases s.len(),
{
    if s.len() == 0 {
        Seq::empty()
    } else {
        insert_by_name(by_name(s.drop_last()), s.last())
    }
}

proof fn lemma_insert_by_name_at(s: Seq<VideoBase>, x: VideoBase, j: int)
    requires
        0 <= j <= s.len(),
        forall|k: int| 0 <= k < j ==> !seq_lt(name_key(x), name_key(#[trigger] s[k])),
        j < s.len() ==> seq_lt(name_key(x), name_key(s[j])),
    ensures
        insert_by_name(s, x) == s.insert(j, x),
    decreases s.len(),
{
    if s.len() == 0 {
        assert(s.insert(j, x) =~= seq![x]);
    } else if j == 0 {
        assert(s.insert(0, x) =~= seq![x] + s);
    } else {
        let t = s.drop_first();
        assert forall|k: int| 0 <= k < j - 1 implies !seq_lt(name_key(x), name_key(#[trigger] t[k])) by {
            assert(t[k] == s[k + 1]);
        }
        if j - 1 < t.len() {
            assert(t[j - 1] == s[j]);
        }
        lemma_insert_by_name_at(t, x, j - 1);
        assert(seq![s[0]] + t.insert(j - 1, x) =~= s.insert(j, x));
    }
}

/// Orders titles by lower-cased name, keeping ties in order.
pub fn sort_by_name(items: Vec<VideoBase>) -> (r: Vec<VideoBase>)
    ensures
        r@ == by_name(items@),
{
    let mut rest = items;
    let ghost all = rest@;
    let n: usize = rest.len();
    let mut out: Vec<VideoBase> = Vec::new();
    let mut keys: Vec<String> = Vec::new();
    let mut taken: usize = 0;
    while rest.len() > 0
        invariant
            taken + rest@.len() == all.len(),
            all.len() == n,
            rest@ == all.skip(taken as int),
            out@ == by_name(all.take(taken as int)),
            keys@.len() == out@.len(),
            forall|k: int| 0 <= k < keys@.len() ==> (#[trigger] keys@[k])@ == name_key(out@[k]),
        decreases rest@.len(),
    {
        let x = rest.remove(0);
        proof {
            assert(x == all[taken as int]);
            assert(rest@ =~= all.skip(taken + 1));
            assert(all.take(taken + 1).drop_last() =~= all.take(taken as int));
            assert(all.take(taken + 1).last() == x);
        }
        let kx = to_lowercase(x.display_name.as_str());
        let mut j: usize = 0;
        while j < out.len() && !str_lt(kx.as_str(), keys[j].as_str())
            invariant
                j <= out@.len(),
                keys@.len() == out@.len(),
                forall|k: int| 0 <= k < keys@.len() ==> (#[trigger] keys@[k])@ == name_key(out@[k]),
                kx@ == name_key(x),
                forall|k: int| 0 <= k < j ==> !seq_lt(name_key(x), name_key(#[trigger] out@[k])),
            decreases out@.len() - j,
        {
            j = j + 1;
        }
        proof {
            lemma_insert_by_name_at(out@, x, j as int);
        }
        let ghost old_keys = keys@;
        let ghost old_out = out@;
        out.insert(j, x);
        keys.insert(j, kx);
        proof {
            assert forall|k: int| 0 <= k < keys@.len() implies (#[trigger] keys@[k])@ == name_key(out@[k]) by {
                if k < j {
                    assert(keys@[k] == old_keys[k] && out@[k] == old_out[k]);
                } else if k > j {
                    assert(keys@[k] == old_keys[k - 1] && out@[k] == old_out[k - 1]);
                }
            }
        }
        taken = taken + 1;
    }
    proof {
        assert(all.take(taken as int) =~= all);
    }
    out
}

/// The titles the `/videos` listing is drawn from: the movies, then the shows
/// and the seasons where the configuration includes them.
pub open spec fn listed(
    movies: Seq<VideoBase>,
    shows: Seq<VideoBase>,
    seasons: Seq<VideoBase>,
    include_shows: bool,
    include_seasons: bool,
) -> Seq<VideoBase> {
    movies + (if include_shows {
        shows
    } else {
        Seq::empty()
    }) + (if include_seasons {
        seasons
    } else {
        Seq::empty()
    })
}

/// The `/videos` listing: the held titles of the included kinds, ordered by
/// lower-cased name, at most `max_light_cards` of them.
pub fn list_all_videos(
    movies: Vec<VideoBase>,
    shows: Vec<VideoBase>,
    seasons: Vec<VideoBase>,
    include_shows: bool,
    include_seasons: bool,
    max_light_cards: i64,
) -> (r: Vec<VideoBase>)
    ensures
        ({
            let all = by_name(listed(movies@, shows@, seasons@, include_shows, include_seasons));
            r@ == all.take(kept(all.len(), max_light_cards) as int)
        }),
{
    let mut out = movies;
    let mut more_shows = shows;
    let mut more_seasons = seasons;
    if include_shows {
        out.append(&mut more_shows);
    }
    if include_seasons {
        out.append(&mut more_seasons);
    }
    proof {
        assert(out@ =~= listed(movies@, shows@, seasons@, include_shows, include_seasons));
    }
    let mut sorted = sort_by_name(out);
    truncate_to(&mut sorted, max_light_cards);
    sorted
}

// ---------------------------------------------------------------------------
// What the orders guarantee

proof fn lemma_insert_by_popularity_sorted(s: Seq<SearchResult>, x: SearchResult)
    requires
        forall|i: int, j: int| 0 <= i < j < s.len() ==> popularity_key(#[trigger] s[i]) >= popularity_key(#[trigger] s[j]),
    ensures
        ({
            let t = insert_by_popularity(s, x);
            &&& t.len() == s.len() + 1
            &&& t.to_multiset() == s.to_multiset().insert(x)
            &&& forall|i: int, j: int| 0 <= i < j < t.len() ==> popularity_key(#[trigger] t[i]) >= popularity_key(#[trigger] t[j])
        }),
    decreases s.len(),
{
    broadcast use vstd::seq_lib::group_to_multiset_ensures;
    let t = insert_by_popularity(s, x);
    if s.len() == 0 {
        assert(t =~= seq![x]);
        assert(s.to_multiset() =~= vstd::multiset::Multiset::empty());
        assert(seq![x] =~= Seq::<SearchResult>::empty().push(x));
    } else if popularity_key(s[0]) < popularity_key(x) {
        assert(t == seq![x] + s);
        assert forall|i: int, j: int| 0 <= i < j < t.len() implies popularity_key(#[trigger] t[i]) >= popularity_key(#[trigger] t[j]) by {
            if i == 0 {
                assert(t[j] == s[j - 1]);
                if j - 1 > 0 {
                    assert(popularity_key(s[0]) >= popularity_key(s[j - 1]));
                }
            } else {
                assert(t[i] == s[i - 1] && t[j] == s[j - 1]);
            }
        }
        vstd::seq_lib::lemma_multiset_commutative(seq![x], s);
        assert(seq![x] =~= Seq::<SearchResult>::empty().push(x));
    } else {
        let d = s.drop_first();
        assert forall|i: int, j: int| 0 <= i < j < d.len() implies popularity_key(#[trigger] d[i]) >= popularity_key(#[trigger] d[j]) by {
            assert(d[i] == s[i + 1] && d[j] == s[j + 1]);
        }
        lemma_insert_by_popularity_sorted(d, x);
        let u = insert_by_popularity(d, x);
        assert(t == seq![s[0]] + u);
        assert forall|i: int, j: int| 0 <= i < j < t.len() implies popularity_key(#[trigger] t[i]) >= popularity_key(#[trigger] t[j]) by {
            if i == 0 {
                assert(t[j] == u[j - 1]);
                assert(u.to_multiset().contains(u[j - 1]));
                assert(u.to_multiset() == d.to_multiset().insert(x));
                if u[j - 1] != x {
                    assert(d.to_multiset().contains(u[j - 1]));
                    let k = choose|k: int| 0 <= k < d.len() && d[k] == u[j - 1];
                    assert(popularity_key(s[0]) >= popularity_key(s[k + 1]));
                }
            } else {
                assert(t[i] == u[i - 1] && t[j] == u[j - 1]);
            }
        }
        vstd::seq_lib::lemma_multiset_commutative(seq![s[0]], u);
        vstd::seq_lib::lemma_multiset_commutative(seq![s[0]], d);
        assert(s =~= seq![s[0]] + d);
    }
}

/// Search hits come out most popular first, and no hit is lost, duplicated or
/// added: the output is a reordering of the input.
pub proof fn law_search_by_popularity(s: Seq<SearchResult>)
    ensures
        ({
            let t = by_popularity(s);
            &&& t.to_multiset() == s.to_multiset()
            &&& forall|i: int, j: int| 0 <= i < j < t.len() ==> popularity_key(#[trigger] t[i]) >= popularity_key(#[trigger] t[j])
        }),
    decreases s.len(),
{
    broadcast use vstd::seq_lib::group_to_multiset_ensures;
    if s.len() == 0 {
        assert(s.to_multiset() =~= vstd::multiset::Multiset::empty());
        assert(by_popularity(s).to_multiset() =~= vstd::multiset::Multiset::empty());
    } else {
        law_search_by_popularity(s.drop_last());
        lemma_insert_by_popularity_sorted(by_popularity(s.drop_last()), s.last());
        assert(s =~= s.drop_last().push(s.last()));
    }
}

/// `a` does not come after `b` in name order.
pub open spec fn name_le(a: VideoBase, b: VideoBase) -> bool {
    !seq_lt(name_key(b), name_key(a))
}

proof fn lemma_insert_by_name_sorted(s: Seq<VideoBase>, x: VideoBase)
    requires
        forall|i: int, j: int| 0 <= i < j < s.len() ==> name_le(#[trigger] s[i], #[trigger] s[j]),
    ensures
        ({
            let t = insert_by_name(s, x);
            &&& t.len() == s.len() + 1
            &&& t.to_multiset() == s.to_multiset().insert(x)
            &&& forall|i: int, j: int| 0 <= i < j < t.len() ==> name_le(#[trigger] t[i], #[trigger] t[j])
        }),
    decreases s.len(),
{
    broadcast use vstd::seq_lib::group_to_multiset_ensures;
    let t = insert_by_name(s, x);
    if s.len() == 0 {
        assert(t =~= seq![x]);
        assert(s.to_multiset() =~= vstd::multiset::Multiset::empty());
        assert(seq![x] =~= Seq::<VideoBase>::empty().push(x));
    } else if seq_lt(name_key(x), name_key(s[0])) {
        assert(t == seq![x] + s);
        assert forall|i: int, j: int| 0 <= i < j < t.len() implies name_le(#[trigger] t[i], #[trigger] t[j]) by {
            if i == 0 {
                assert(t[j] == s[j - 1]);
                let y = s[j - 1];
                if j - 1 > 0 {
                    assert(name_le(s[0], y));
                    lemma_seq_lt_total(name_key(s[0]), name_key(y));
                    if name_key(s[0]) != name_key(y) {
                        lemma_seq_lt_transitive(name_key(x), name_key(s[0]), name_key(y));
                    }
                }
                lemma_seq_lt_total(name_key(x), name_key(y));
            } else {
                assert(t[i] == s[i - 1] && t[j] == s[j - 1]);
            }
        }
        vstd::seq_lib::lemma_multiset_commutative(seq![x], s);
        assert(seq![x] =~= Seq::<VideoBase>::empty().push(x));
    } else {
        let d = s.drop_first();
        assert forall|i: int, j: int| 0 <= i < j < d.len() implies name_le(#[trigger] d[i], #[trigger] d[j]) by {
            assert(d[i] == s[i + 1] && d[j] == s[j + 1]);
        }
        lemma_insert_by_name_sorted(d, x);
        let u = insert_by_name(d, x);
        assert(t == seq![s[0]] + u);
        assert forall|i: int, j: int| 0 <= i < j < t.len() implies name_le(#[trigger] t[i], #[trigger] t[j]) by {
            if i == 0 {
                assert(t[j] == u[j - 1]);
                assert(u.to_multiset().contains(u[j - 1]));
                assert(u.to_multiset() == d.to_multiset().insert(x));
                if u[j - 1] != x {
                    assert(d.to_multiset().contains(u[j - 1]));
                    let k = choose|k: int| 0 <= k < d.len() && d[k] == u[j - 1];
                    assert(name_le(s[0], s[k + 1]));
                }
            } else {
                assert(t[i] == u[i - 1] && t[j] == u[j - 1]);
            }
        }
        vstd::seq_lib::lemma_multiset_commutative(seq![s[0]], u);
        vstd::seq_lib::lemma_multiset_commutative(seq![s[0]], d);
        assert(s =~= seq![s[0]] + d);
    }
}

/// The `/videos` listing comes out in name order, ignoring case, and no title
/// is lost, duplicated or added: the output is a reordering of the input.
pub proof fn law_listing_by_name(s: Seq<VideoBase>)
    ensures
        ({
            let t = by_name(s);
            &&& t.to_multiset() == s.to_multiset()
            &&& forall|i: int, j: int| 0 <= i < j < t.len() ==> name_le(#[trigger] t[i], #[trigger] t[j])
        }),
    decreases s.len(),
{
    broadcast use vstd::seq_lib::group_to_multiset_ensures;
    if s.len() == 0 {
        assert(s.to_multiset() =~= vstd::multiset::Multiset::empty());
        assert(by_name(s).to_multiset() =~= vstd::multiset::Multiset::empty());
    } else {
        law_listing_by_name(s.drop_last());
        lemma_insert_by_name_sorted(by_name(s.drop_last()), s.last());
        assert(s =~= s.drop_last().push(s.last()));
    }
}

} // verus!
