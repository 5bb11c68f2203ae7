//! Laws of what the library picks out of TMDB answers and stored rows: the age
//! rating of the configured region, the trailer, the directors, the watch
//! providers of the region and the flag listings. Each is stated over the
//! fields of the inputs, for every input.

use vstd::prelude::*;

use crate::dto::{
    best_trailer_index, first_rating, first_video, is_region, is_trailer, is_youtube, rating_for, usable,
    video_rank_ok, TmdbContentRating, TmdbVideo, TmdbWatchProviderRegion, TmdbWatchProviders,
};
use crate::mapper::{providers_for_region, region_entry};
use crate::model::{Flag, ProviderKind, VideoBase};
use crate::people::{director_rows, is_director_row, rows_where, JoinedCredit};
use crate::video::flag_filtered;

verus! {

// ---------------------------------------------------------------------------
// Age rating

/// Whether a rating result is wanted: a non-empty rating, for `region` when
/// one is given.
spec fn rating_ok(x: TmdbContentRating, region: Option<Seq<char>>) -> bool {
    usable(x.rating) && match region {
        Some(g) => is_region(x.iso_3166_1, g),
        None => true,
    }
}

proof fn lemma_first_rating_none(r: Seq<TmdbContentRating>, region: Option<Seq<char>>)
    requires
        forall|j: int| 0 <= j < r.len() ==> !rating_ok(#[trigger] r[j], region),
    ensures
        first_rating(r, region) is None,
    decreases r.len(),
{
    if r.len() > 0 {
        let p = r.drop_last();
        assert forall|j: int| 0 <= j < p.len() implies !rating_ok(#[trigger] p[j], region) by {
            assert(p[j] == r[j]);
        }
        lemma_first_rating_none(p, region);
        assert(!rating_ok(r[r.len() - 1], region));
    }
}

proof fn lemma_first_rating_is(r: Seq<TmdbContentRating>, region: Option<Seq<char>>, i: int)
    requires
        0 <= i < r.len(),
        rating_ok(r[i], region),
        forall|j: int| 0 <= j < i ==> !rating_ok(#[trigger] r[j], region),
    ensures
        first_rating(r, region) == Some(i),
    decreases r.len(),
{
    let p = r.drop_last();
    if i < r.len() - 1 {
        assert forall|j: int| 0 <= j < i implies !rating_ok(#[trigger] p[j], region) by {
            assert(p[j] == r[j]);
        }
        assert(p[i] == r[i]);
        lemma_first_rating_is(p, region, i);
    } else {
        assert forall|j: int| 0 <= j < p.len() implies !rating_ok(#[trigger] p[j], region) by {
            assert(p[j] == r[j]);
        }
        lemma_first_rating_none(p, region);
    }
}

/// The age rating of a show is that of the first result for the configured
/// region that carries a non-empty rating, whatever other regions rate it.
pub proof fn law_rating_of_region(r: Seq<TmdbContentRating>, region: Seq<char>, i: int)
    requires
        0 <= i < r.len(),
        r[i].iso_3166_1 matches Some(c) && c@ == region,
        r[i].rating matches Some(t) && t@.len() > 0,
        forall|j: int|
            0 <= j < i ==> !(((#[trigger] r[j]).iso_3166_1 matches Some(c) && c@ == region) && (r[j].rating matches Some(t)
                && t@.len() > 0)),
    ensures
        rating_for(r, region) == r[i].rating,
{
    lemma_first_rating_is(r, Some(region), i);
}

/// Only when no result for the region carries a non-empty rating does the
/// rating fall back to the first non-empty rating of any region.
pub proof fn law_rating_falls_back(r: Seq<TmdbContentRating>, region: Seq<char>, i: int)
    requires
        0 <= i < r.len(),
        forall|j: int|
            0 <= j < r.len() ==> !(((#[trigger] r[j]).iso_3166_1 matches Some(c) && c@ == region) && (r[j].rating matches Some(t)
                && t@.len() > 0)),
        r[i].rating matches Some(t) && t@.len() > 0,
        forall|j: int| 0 <= j < i ==> !((#[trigger] r[j]).rating matches Some(t) && t@.len() > 0),
    ensures
        rating_for(r, region) == r[i].rating,
{
    lemma_first_rating_none(r, Some(region));
    lemma_first_rating_is(r, None, i);
}

/// With no non-empty rating anywhere there is no age rating.
pub proof fn law_no_rating(r: Seq<TmdbContentRating>, region: Seq<char>)
    requires
        forall|j: int| 0 <= j < r.len() ==> !((#[trigger] r[j]).rating matches Some(t) && t@.len() > 0),
    ensures
        rating_for(r, region) is None,
{
    lemma_first_rating_none(r, Some(region));
    lemma_first_rating_none(r, None);
}

// ---------------------------------------------------------------------------
// Trailer

proof fn lemma_first_video_none(s: Seq<TmdbVideo>, tier: int)
    requires
        forall|j: int| 0 <= j < s.len() ==> !video_rank_ok(#[trigger] s[j], tier),
    ensures
        first_video(s, tier) is None,
    decreases s.len(),
{
    if s.len() > 0 {
        let p = s.drop_last();
        assert forall|j: int| 0 <= j < p.len() implies !video_rank_ok(#[trigger] p[j], tier) by {
            assert(p[j] == s[j]);
        }
        lemma_first_video_none(p, tier);
        assert(!video_rank_ok(s[s.len() - 1], tier));
    }
}

proof fn lemma_first_video_is(s: Seq<TmdbVideo>, tier: int, i: int)
    requires
        0 <= i < s.len(),
        video_rank_ok(s[i], tier),
        forall|j: int| 0 <= j < i ==> !video_rank_ok(#[trigger] s[j], tier),
    ensures
        first_video(s, tier) == Some(i),
    decreases s.len(),
{
    let p = s.drop_last();
    if i < s.len() - 1 {
        assert forall|j: int| 0 <= j < i implies !video_rank_ok(#[trigger] p[j], tier) by {
            assert(p[j] == s[j]);
        }
        assert(p[i] == s[i]);
        lemma_first_video_is(p, tier, i);
    } else {
        assert forall|j: int| 0 <= j < p.len() implies !video_rank_ok(#[trigger] p[j], tier) by {
            assert(p[j] == s[j]);
        }
        lemma_first_video_none(p, tier);
    }
}

/// The trailer is the first official YouTube trailer whenever there is one,
/// however many unofficial trailers come before it.
pub proof fn law_trailer_prefers_official(s: Seq<TmdbVideo>, i: int)
    requires
        0 <= i < s.len(),
        is_youtube(s[i]) && is_trailer(s[i]) && s[i].official,
        forall|j: int| 0 <= j < i ==> !(is_youtube(#[trigger] s[j]) && is_trailer(s[j]) && s[j].official),
    ensures
        best_trailer_index(s) == Some(i),
{
    lemma_first_video_is(s, 0, i);
}

/// Without an official YouTube trailer, the trailer is the first YouTube
/// trailer of any kind.
pub proof fn law_trailer_then_any_trailer(s: Seq<TmdbVideo>, i: int)
    requires
        forall|j: int| 0 <= j < s.len() ==> !(is_youtube(#[trigger] s[j]) && is_trailer(s[j]) && s[j].official),
        0 <= i < s.len(),
        is_youtube(s[i]) && is_trailer(s[i]),
        forall|j: int| 0 <= j < i ==> !(is_youtube(#[trigger] s[j]) && is_trailer(s[j])),
    ensures
        best_trailer_index(s) == Some(i),
{
    lemma_first_video_none(s, 0);
    lemma_first_video_is(s, 1, i);
}

/// Without any YouTube trailer, the trailer is the first YouTube clip; with no
/// YouTube clip there is none.
pub proof fn law_trailer_then_any_clip(s: Seq<TmdbVideo>)
    requires
        forall|j: int| 0 <= j < s.len() ==> !(is_youtube(#[trigger] s[j]) && is_trailer(s[j])),
    ensures
        forall|i: int|
            0 <= i < s.len() && is_youtube(s[i]) && (forall|j: int| 0 <= j < i ==> !is_youtube(#[trigger] s[j]))
                ==> best_trailer_index(s) == Some(i),
        (forall|j: int| 0 <= j < s.len() ==> !is_youtube(#[trigger] s[j])) ==> best_trailer_index(s) is None,
{
    lemma_first_video_none(s, 0);
    lemma_first_video_none(s, 1);
    assert forall|i: int|
        0 <= i < s.len() && is_youtube(s[i]) && (forall|j: int| 0 <= j < i ==> !is_youtube(#[trigger] s[j]))
            implies best_trailer_index(s) == Some(i) by {
        lemma_first_video_is(s, 2, i);
    }
    if forall|j: int| 0 <= j < s.len() ==> !is_youtube(#[trigger] s[j]) {
        lemma_first_video_none(s, 2);
    }
}

// ---------------------------------------------------------------------------
// Directors

proof fn lemma_rows_where(rows: Seq<JoinedCredit>, keep: spec_fn(JoinedCredit) -> bool)
    ensures
        forall|k: int| 0 <= k < rows_where(rows, keep).len() ==> keep(#[trigger] rows_where(rows, keep)[k]),
        forall|i: int| 0 <= i < rows.len() && keep(#[trigger] rows[i]) ==> rows_where(rows, keep).contains(rows[i]),
    decreases rows.len(),
{
    if rows.len() > 0 {
        let p = rows.drop_last();
        lemma_rows_where(p, keep);
        let w = rows_where(rows, keep);
        let wp = rows_where(p, keep);
        assert forall|k: int| 0 <= k < w.len() implies keep(#[trigger] w[k]) by {
            if k < wp.len() {
                assert(w[k] == wp[k]);
            }
        }
        assert forall|i: int| 0 <= i < rows.len() && keep(#[trigger] rows[i]) implies w.contains(rows[i]) by {
            if i < p.len() {
                assert(p[i] == rows[i]);
                let k = choose|k: int| 0 <= k < wp.len() && wp[k] == p[i];
                assert(w[k] == wp[k]);
            } else {
                assert(w[w.len() - 1] == rows[i]);
            }
        }
    }
}

/// A movie's directors are exactly its crew rows whose job is `Director`:
/// every row read as a director is such a row, and every such row is read.
pub proof fn law_directors_are_director_rows(rows: Seq<JoinedCredit>)
    ensures
        forall|k: int|
            0 <= k < director_rows(rows).len() ==> {
                let j = #[trigger] director_rows(rows)[k];
                &&& !j.row.is_cast
                &&& j.row.job matches Some(job) && job@ == "Director"@
            },
        forall|i: int|
            0 <= i < rows.len() && !(#[trigger] rows[i]).row.is_cast && (rows[i].row.job matches Some(job)
                && job@ == "Director"@) ==> director_rows(rows).contains(rows[i]),
{
    let keep = |j: JoinedCredit| is_director_row(j);
    lemma_rows_where(rows, keep);
    assert forall|i: int|
        0 <= i < rows.len() && !(#[trigger] rows[i]).row.is_cast && (rows[i].row.job matches Some(job)
            && job@ == "Director"@) implies director_rows(rows).contains(rows[i]) by {
        assert(keep(rows[i]));
    }
}

// ---------------------------------------------------------------------------
// Watch providers

proof fn lemma_region_entry_none(s: Seq<(String, TmdbWatchProviderRegion)>, region: Seq<char>)
    requires
        forall|j: int| 0 <= j < s.len() ==> (#[trigger] s[j]).0@ != region,
    ensures
        region_entry(s, region) is None,
    decreases s.len(),
{
    if s.len() > 0 {
        let p = s.drop_last();
        assert forall|j: int| 0 <= j < p.len() implies (#[trigger] p[j]).0@ != region by {
            assert(p[j] == s[j]);
        }
        lemma_region_entry_none(p, region);
    }
}

proof fn lemma_region_entry_is(s: Seq<(String, TmdbWatchProviderRegion)>, region: Seq<char>, i: int)
    requires
        0 <= i < s.len(),
        s[i].0@ == region,
        forall|j: int| 0 <= j < i ==> (#[trigger] s[j]).0@ != region,
    ensures
        region_entry(s, region) == Some(i),
    decreases s.len(),
{
    let p = s.drop_last();
    if i < s.len() - 1 {
        assert forall|j: int| 0 <= j < i implies (#[trigger] p[j]).0@ != region by {
            assert(p[j] == s[j]);
        }
        assert(p[i] == s[i]);
        lemma_region_entry_is(p, region, i);
    } else {
        assert forall|j: int| 0 <= j < p.len() implies (#[trigger] p[j]).0@ != region by {
            assert(p[j] == s[j]);
        }
        lemma_region_entry_none(p, region);
    }
}

/// The providers of the configured region list every flat-rate, then every
/// rental, then every purchase provider of the region's entry, in order and
/// each labelled with its kind: none is dropped or added.
pub proof fn law_region_providers_complete(dto: TmdbWatchProviders, region: Seq<char>, i: int)
    requires
        0 <= i < dto.results@.len(),
        dto.results@[i].0@ == region,
        forall|j: int| 0 <= j < i ==> (#[trigger] dto.results@[j]).0@ != region,
    ensures
        ({
            let e = dto.results@[i].1;
            let p = providers_for_region(dto, region);
            let f = e.flatrate@.len();
            let n = e.rent@.len();
            &&& p.len() == f + n + e.buy@.len()
            &&& forall|k: int|
                0 <= k < f ==> (#[trigger] p[k]).0 == ProviderKind::Flatrate && p[k].1.provider_id
                    == e.flatrate@[k].provider_id && p[k].1.provider_name == e.flatrate@[k].provider_name
                    && p[k].1.logo_path == e.flatrate@[k].logo_path && p[k].1.display_priority
                    == e.flatrate@[k].display_priority
            &&& forall|k: int|
                0 <= k < n ==> (#[trigger] p[f + k]).0 == ProviderKind::Rent && p[f + k].1.provider_id
                    == e.rent@[k].provider_id && p[f + k].1.provider_name == e.rent@[k].provider_name
                    && p[f + k].1.logo_path == e.rent@[k].logo_path && p[f + k].1.display_priority
                    == e.rent@[k].display_priority
            &&& forall|k: int|
                0 <= k < e.buy@.len() ==> (#[trigger] p[f + n + k]).0 == ProviderKind::Buy && p[f + n
                    + k].1.provider_id == e.buy@[k].provider_id && p[f + n + k].1.provider_name
                    == e.buy@[k].provider_name && p[f + n + k].1.logo_path == e.buy@[k].logo_path && p[f
                    + n + k].1.display_priority == e.buy@[k].display_priority
        }),
{
    lemma_region_entry_is(dto.results@, region, i);
}

/// A region without an entry has no providers.
pub proof fn law_region_without_entry(dto: TmdbWatchProviders, region: Seq<char>)
    requires
        forall|j: int| 0 <= j < dto.results@.len() ==> (#[trigger] dto.results@[j]).0@ != region,
    ensures
        providers_for_region(dto, region).len() == 0,
{
    lemma_region_entry_none(dto.results@, region);
}

// ---------------------------------------------------------------------------
// Flag listings

/// Whether a title has a flag set.
pub open spec fn flagged(b: VideoBase, f: Flag) -> bool {
    match f {
        Flag::Favorite => b.favorite,
        Flag::Watched => b.watched,
        Flag::Watchlist => b.on_watchlist,
    }
}

/// A flag listing (favourites, watched, watch list) holds only titles with the
/// flag set, and every title with it set.
pub proof fn law_flag_listing(v: Seq<VideoBase>, f: Flag)
    ensures
        forall|k: int| 0 <= k < flag_filtered(v, f).len() ==> flagged(#[trigger] flag_filtered(v, f)[k], f),
        forall|i: int| 0 <= i < v.len() && flagged(#[trigger] v[i], f) ==> flag_filtered(v, f).contains(v[i]),
    decreases v.len(),
{
    if v.len() > 0 {
        let p = v.drop_last();
        law_flag_listing(p, f);
        let w = flag_filtered(v, f);
        let wp = flag_filtered(p, f);
        assert forall|k: int| 0 <= k < w.len() implies flagged(#[trigger] w[k], f) by {
            if k < wp.len() {
                assert(w[k] == wp[k]);
            }
        }
        assert forall|i: int| 0 <= i < v.len() && flagged(#[trigger] v[i], f) implies w.contains(v[i]) by {
            if i < p.len() {
                assert(p[i] == v[i]);
                let k = choose|k: int| 0 <= k < wp.len() && wp[k] == p[i];
                assert(w[k] == wp[k]);
            } else {
                assert(w[w.len() - 1] == v[i]);
            }
        }
    }
}

} // verus!
