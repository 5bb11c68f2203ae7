//! What caching a fetched movie or show writes to the store. The auxiliary
//! answers (release dates or content ratings, watch providers) are advisory:
//! when one failed, the title is still written, without that part.

use vstd::prelude::*;
use vstd::string::*;

use crate::collection::collection_stub;
use crate::dto::{
    certification_for, rating_for, TmdbCast, TmdbContentRatings, TmdbCrew, TmdbMovie,
    TmdbReleaseDates, TmdbSeasonBrief, TmdbTvShow, TmdbWatchProviders,
};
use crate::error::AppError;
use crate::mapper::{
    cast_list, cast_of, crew_list, crew_of, is_movie_upsert, is_season_brief_upsert,
    is_stored_recommendation, is_tv_upsert, movie_upsert, providers_for_region,
    recommendation_set, season_brief_upsert, synthetic_id_fits, tv_upsert, watch_providers,
};
use crate::model::{Cast, Collection, Crew, ProviderKind, VideoType, WatchProvider};
use crate::store::RecommendationSet;
use crate::video::VideoUpsert;

verus! {

/// The writes that cache one fetched title.
#[derive(Debug)]
pub struct CacheWrites {
    /// The title's own row.
    pub upsert: VideoUpsert,
    /// Its cast and crew, when the payload carried credits.
    pub credits: Option<(Vec<Cast>, Vec<Crew>)>,
    /// Its recommendations, when the payload carried them.
    pub recommendations: Option<RecommendationSet>,
    /// The stub of the collection a movie belongs to.
    pub collection: Option<Collection>,
    /// The shallow rows of a show's seasons that have a number.
    pub seasons: Vec<VideoUpsert>,
}

/// The age rating a release-dates answer yields for `region`; none when the
/// answer failed.
pub open spec fn age_rating_of(r: Result<TmdbReleaseDates, AppError>, region: Seq<char>) -> Option<String> {
    match r {
        Ok(d) => certification_for(d.results@, region),
        Err(_) => None,
    }
}

/// The age rating a content-ratings answer yields for `region`; none when the
/// answer failed.
pub open spec fn show_rating_of(r: Result<TmdbContentRatings, AppError>, region: Seq<char>) -> Option<String> {
    match r {
        Ok(d) => rating_for(d.results@, region),
        Err(_) => None,
    }
}

/// The providers a watch-providers answer yields for `region`; none when the
/// answer failed.
pub open spec fn providers_of(r: Result<TmdbWatchProviders, AppError>, region: Seq<char>) -> Seq<
    (ProviderKind, WatchProvider),
> {
    match r {
        Ok(p) => providers_for_region(p, region),
        Err(_) => Seq::empty(),
    }
}

fn providers_or_none(r: &Result<TmdbWatchProviders, AppError>, region: &str) -> (out: Vec<
    (ProviderKind, WatchProvider),
>)
    ensures
        out@ == providers_of(*r, region@),
{
    match r {
        Ok(p) => watch_providers(p, region),
        Err(_) => Vec::new(),
    }
}

/// The credits of a payload as written: the cast and the crew, each in order.
pub open spec fn credits_written(c: Option<(Vec<Cast>, Vec<Crew>)>, cast: Seq<TmdbCast>, crew: Seq<TmdbCrew>) -> bool {
    c matches Some((a, b)) && a@ == cast.map_values(|d: TmdbCast| cast_of(d)) && b@ == crew.map_values(
        |d: TmdbCrew| crew_of(d),
    )
}

/// A recommendation set as written from a payload's recommendations.
pub open spec fn recommendations_written(
    s: RecommendationSet,
    paged: crate::dto::TmdbPaged<crate::dto::TmdbMovieBrief>,
    kind: VideoType,
) -> bool {
    &&& s.page == paged.page
    &&& s.total_pages == paged.total_pages
    &&& s.total_results == paged.total_results
    &&& s.items@.len() == paged.results@.len()
    &&& forall|i: int|
        0 <= i < s.items@.len() ==> is_stored_recommendation(#[trigger] s.items@[i], paged.results@[i], kind)
}

/// Caching a fetched movie writes: its row, marked fully loaded, with the age
/// rating and providers of the configured region; its credits and
/// recommendations when the payload has them; and a stub of its collection.
pub fn plan_movie_cache(
    movie: &TmdbMovie,
    release_dates: &Result<TmdbReleaseDates, AppError>,
    providers: &Result<TmdbWatchProviders, AppError>,
    region: &str,
) -> (w: CacheWrites)
    ensures
        is_movie_upsert(
            w.upsert,
            *movie,
            age_rating_of(*release_dates, region@),
            providers_of(*providers, region@),
            true,
        ),
        match movie.credits {
            Some(c) => credits_written(w.credits, c.cast@, c.crew@),
            None => w.credits is None,
        },
        match movie.recommendations {
            Some(p) => w.recommendations matches Some(s) && recommendations_written(s, p, VideoType::Movie),
            None => w.recommendations is None,
        },
        match movie.belongs_to_collection {
            Some(c) => w.collection matches Some(s) && s.id == c.id && s.name == c.name && s.poster_path
                == c.poster_path && s.backdrop_path == c.backdrop_path && s.overview is None
                && s.parts@.len() == 0,
            None => w.collection is None,
        },
        w.seasons@.len() == 0,
{
    let age_rating = match release_dates {
        Ok(d) => d.certification(region),
        Err(_) => None,
    };
    let provs = providers_or_none(providers, region);
    let upsert = movie_upsert(movie, age_rating, provs, true);
    let credits = match &movie.credits {
        Some(c) => Some((cast_list(&c.cast), crew_list(&c.crew))),
        None => None,
    };
    let recommendations = match &movie.recommendations {
        Some(p) => Some(recommendation_set(p, VideoType::Movie)),
        None => None,
    };
    let collection = match &movie.belongs_to_collection {
        Some(c) => Some(collection_stub(c.id, &c.name, &c.poster_path, &c.backdrop_path)),
        None => None,
    };
    CacheWrites { upsert, credits, recommendations, collection, seasons: Vec::new() }
}

/// The seasons of a show that have a number, in order.
pub open spec fn numbered(seasons: Seq<TmdbSeasonBrief>) -> Seq<TmdbSeasonBrief>
    decreases seasons.len(),
{
    if seasons.len() == 0 {
        Seq::empty()
    } else if seasons.last().season_number is Some {
        numbered(seasons.drop_last()).push(seasons.last())
    } else {
        numbered(seasons.drop_last())
    }
}

/// Every numbered season of `seasons` has a synthetic key that fits.
pub open spec fn season_keys_fit(tv_show_id: i64, seasons: Seq<TmdbSeasonBrief>) -> bool {
    forall|i: int|
        0 <= i < seasons.len() ==> ((#[trigger] seasons[i]).season_number matches Some(s)
            ==> synthetic_id_fits(tv_show_id, s))
}

/// Caching a fetched show writes: its row, marked fully loaded, with the age
/// rating and providers of the configured region; its credits and
/// recommendations when the payload has them; and a shallow row for each of
/// its numbered seasons (episodes come when a season is opened).
pub fn plan_show_cache(
    show: &TmdbTvShow,
    ratings: &Result<TmdbContentRatings, AppError>,
    providers: &Result<TmdbWatchProviders, AppError>,
    region: &str,
) -> (w: CacheWrites)
    requires
        season_keys_fit(show.id, show.seasons@),
    ensures
        is_tv_upsert(
            w.upsert,
            *show,
            show_rating_of(*ratings, region@),
            providers_of(*providers, region@),
            true,
        ),
        match show.credits {
            Some(c) => credits_written(w.credits, c.cast@, c.crew@),
            None => w.credits is None,
        },
        match show.recommendations {
            Some(p) => w.recommendations matches Some(s) && recommendations_written(s, p, VideoType::Tvshow),
            None => w.recommendations is None,
        },
        w.collection is None,
        w.seasons@.len() == numbered(show.seasons@).len(),
        forall|k: int|
            0 <= k < w.seasons@.len() ==> is_season_brief_upsert(
                #[trigger] w.seasons@[k],
                show.id,
                numbered(show.seasons@)[k],
                numbered(show.seasons@)[k].season_number->0,
            ),
{
    let age_rating = match ratings {
        Ok(r) => r.rating(region),
        Err(_) => None,
    };
    let provs = providers_or_none(providers, region);
    let upsert = tv_upsert(show, age_rating, provs, true);
    let credits = match &show.credits {
        Some(c) => Some((cast_list(&c.cast), crew_list(&c.crew))),
        None => None,
    };
    let recommendations = match &show.recommendations {
        Some(p) => Some(recommendation_set(p, VideoType::Tvshow)),
        None => None,
    };
    let mut seasons: Vec<VideoUpsert> = Vec::new();
    let mut i: usize = 0;
    while i < show.seasons.len()
        invariant
            i <= show.seasons@.len(),
            season_keys_fit(show.id, show.seasons@),
            seasons@.len() == numbered(show.seasons@.take(i as int)).len(),
            forall|k: int|
                0 <= k < seasons@.len() ==> is_season_brief_upsert(
                    #[trigger] seasons@[k],
                    show.id,
                    numbered(show.seasons@.take(i as int))[k],
                    numbered(show.seasons@.take(i as int))[k].season_number->0,
                ),
        decreases show.seasons@.len() - i,
    {
        let ghost t = show.seasons@.take(i + 1);
        proof {
            assert(t.drop_last() =~= show.seasons@.take(i as int));
            assert(t.last() == show.seasons@[i as int]);
        }
        match season_brief_upsert(show.id, &show.seasons[i]) {
            Some(u) => seasons.push(u),
            None => {},
        }
        i = i + 1;
    }
    proof {
        assert(show.seasons@.take(show.seasons@.len() as int) =~= show.seasons@);
    }
    CacheWrites { upsert, credits, recommendations, collection: None, seasons }
}

} // verus!
