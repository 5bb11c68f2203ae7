//! The decisions of the get-or-fetch layer between the HTTP handlers and the
//! store or TMDB: when the cache cannot answer on its own, how a patch is
//! split into flag, tag and override writes, how lists are trimmed, and how
//! responses are put together from cached parts.

use vstd::prelude::*;
use vstd::string::*;

use crate::error::AppError;
use crate::model::{
    is_blank_base, reserved_flag, reserved_flag_of, Collection, Credits, Crew, Flag, Images, Movie,
    MovieCollection, PersonProfiles, Recommendations, Trailer, TvEpisode, TvEpisodePatch, TvSeason,
    TvShow, TvShowCredits, TvShowRecommendations, VideoBase, VideoPatch, VideoType,
};
use crate::store::{RecommendationSet, StoredRecommendation, VideoOverrides};
use crate::text::{clone_opt, concat, decimal, decimal_text, to_owned, trim, trim_spec};
use crate::video::VideoExtras;

verus! {

// ---------------------------------------------------------------------------
// Messages

/// `what` followed by a space and `id` in decimal, as in `movie 603`.
pub open spec fn named_id(what: Seq<char>, id: i64) -> Seq<char> {
    what + seq![' '] + decimal_text(id as int)
}

fn name_id(what: &str, id: i64) -> (r: String)
    ensures
        r@ == named_id(what@, id),
{
    let mut m = concat(what, " ");
    proof {
        reveal_strlit(" ");
    }
    let d = decimal(id);
    m.append(d.as_str());
    m
}

/// The error for a thing that is not there, named by kind and id.
pub fn not_found(what: &str, id: i64) -> (r: AppError)
    ensures
        r matches AppError::NotFound(m) && m@ == named_id(what@, id),
{
    AppError::NotFound(name_id(what, id))
}

/// How a season is named in messages: `season 2 of tv show 1399`.
pub open spec fn season_text(season_number: i64, tv_show_id: i64) -> Seq<char> {
    named_id("season"@, season_number) + " of tv show "@ + decimal_text(tv_show_id as int)
}

/// The error for a season that is not there; `prefix` names what of it was
/// asked for (empty for the season itself).
pub fn season_not_found(prefix: &str, season_number: i64, tv_show_id: i64) -> (r: AppError)
    ensures
        r matches AppError::NotFound(m) && m@ == prefix@ + season_text(season_number, tv_show_id),
{
    let mut m = String::from_str(prefix);
    let s = name_id("season", season_number);
    m.append(s.as_str());
    m.append(" of tv show ");
    let t = decimal(tv_show_id);
    m.append(t.as_str());
    AppError::NotFound(m)
}

/// The error for an episode that is not there.
pub fn episode_not_found(episode_number: i64, season_number: i64, tv_show_id: i64) -> (r: AppError)
    ensures
        r matches AppError::NotFound(m) && m@ == named_id("episode"@, episode_number) + " of "@
            + named_id("season"@, season_number) + ", tv show "@ + decimal_text(tv_show_id as int),
{
    let mut m = name_id("episode", episode_number);
    m.append(" of ");
    let s = name_id("season", season_number);
    m.append(s.as_str());
    m.append(", tv show ");
    let t = decimal(tv_show_id);
    m.append(t.as_str());
    AppError::NotFound(m)
}

/// The value, or the not-found error for `what` and `id`.
pub fn found_or<T>(value: Option<T>, what: &str, id: i64) -> (r: Result<T, AppError>)
    ensures
        value matches Some(v) ==> r == Ok::<T, AppError>(v),
        value is None ==> (r matches Err(AppError::NotFound(m)) && m@ == named_id(what@, id)),
{
    match value {
        Some(v) => Ok(v),
        None => Err(not_found(what, id)),
    }
}

/// Succeeds when the thing is there (a patch target that exists, a delete that
/// removed a row), else the not-found error for `what` and `id`.
pub fn require_found(present: bool, what: &str, id: i64) -> (r: Result<(), AppError>)
    ensures
        present ==> r is Ok,
        !present ==> (r matches Err(AppError::NotFound(m)) && m@ == named_id(what@, id)),
{
    if present {
        Ok(())
    } else {
        Err(not_found(what, id))
    }
}

// ---------------------------------------------------------------------------
// When the cache cannot answer

/// A movie or show is fetched when a refresh is asked for, when it is not
/// stored, or when details are asked for and only a stub is stored.
pub fn needs_fetch(refresh: bool, stored: bool, load_details: bool, details_loaded: bool) -> (r: bool)
    ensures
        r == (refresh || !stored || (load_details && !details_loaded)),
{
    refresh || !stored || (load_details && !details_loaded)
}

/// A season is fetched when a refresh is asked for, when it is not stored, or
/// when only the shallow row from its show is stored.
pub fn season_needs_fetch(refresh: bool, cached: bool, details_loaded: bool) -> (r: bool)
    ensures
        r == (refresh || !cached || !details_loaded),
{
    refresh || !cached || !details_loaded
}

/// Images, credits and recommendations are fetched when a refresh is asked
/// for or nothing is cached.
pub fn cache_needs_fetch(refresh: bool, cached: bool) -> (r: bool)
    ensures
        r == (refresh || !cached),
{
    refresh || !cached
}

/// What a recommendation refresh leads to: the fetched value to store; or,
/// when the fetch failed but a copy is cached, nothing to store (the cached
/// copy is served); or, with nothing cached, the fetch's error.
pub fn refresh_outcome<T>(fetched: Result<T, AppError>, cached: bool) -> (r: Result<Option<T>, AppError>)
    ensures
        fetched matches Ok(v) ==> r == Ok::<Option<T>, AppError>(Some(v)),
        (fetched is Err && cached) ==> r == Ok::<Option<T>, AppError>(None),
        fetched matches Err(e) ==> (!cached ==> r == Err::<Option<T>, AppError>(e)),
{
    match fetched {
        Ok(v) => Ok(Some(v)),
        Err(e) => if cached {
            Ok(None)
        } else {
            Err(e)
        },
    }
}

// ---------------------------------------------------------------------------
// Patches

/// A tag toggle resolved: one of the reserved names switches a flag column,
/// any other name a free-form tag.
#[derive(Debug)]
pub enum TagAction {
    SetFlag(Flag, bool),
    SetTag(String, bool),
}

/// What a patch's tag toggle asks for: nothing without a tag; an error for a
/// blank tag; otherwise the trimmed tag switched to `checked` (on when
/// absent), as a flag when it is a reserved name.
pub open spec fn tag_plan_ok(tag: Option<String>, checked: Option<bool>, r: Result<Option<TagAction>, AppError>) -> bool {
    match tag {
        None => r == Ok::<Option<TagAction>, AppError>(None),
        Some(t) => {
            let name = trim_spec(t@);
            let on = match checked {
                Some(c) => c,
                None => true,
            };
            if name.len() == 0 {
                r matches Err(AppError::BadRequest(m)) && m@ == "tag must not be blank"@
            } else {
                match reserved_flag_of(name) {
                    Some(f) => r == Ok::<Option<TagAction>, AppError>(Some(TagAction::SetFlag(f, on))),
                    None => r matches Ok(Some(TagAction::SetTag(s, o))) && s@ == name && o == on,
                }
            }
        },
    }
}

/// Resolves a tag toggle.
pub fn plan_tag(tag: &Option<String>, checked: Option<bool>) -> (r: Result<Option<TagAction>, AppError>)
    ensures
        tag_plan_ok(*tag, checked, r),
{
    match tag {
        None => Ok(None),
        Some(t) => {
            let name = trim(t.as_str());
            if name.unicode_len() == 0 {
                return Err(AppError::BadRequest(String::from_str("tag must not be blank")));
            }
            let on = match checked {
                Some(c) => c,
                None => true,
            };
            match reserved_flag(name) {
                Some(f) => Ok(Some(TagAction::SetFlag(f, on))),
                None => Ok(Some(TagAction::SetTag(to_owned(name), on))),
            }
        },
    }
}

impl VideoPatch {
    /// The user overrides this patch writes: exactly its override fields.
    pub fn overrides(&self) -> (r: VideoOverrides)
        ensures
            r.poster_path == self.poster_path,
            r.backdrop_path == self.backdrop_path,
            r.overview == self.overview,
            r.imdb_id == self.imdb_id,
            r.wer_streamt_es_id == self.wer_streamt_es_id,
    {
        VideoOverrides {
            poster_path: clone_opt(&self.poster_path),
            backdrop_path: clone_opt(&self.backdrop_path),
            overview: clone_opt(&self.overview),
            imdb_id: clone_opt(&self.imdb_id),
            wer_streamt_es_id: self.wer_streamt_es_id,
        }
    }
}

/// The writes a patch of a movie, show or season makes: its tag toggle, then
/// its overrides. A blank tag fails the whole patch before anything is written.
pub fn plan_video_patch(patch: &VideoPatch) -> (r: Result<(Option<TagAction>, VideoOverrides), AppError>)
    ensures
        match r {
            Ok((t, o)) => {
                &&& tag_plan_ok(patch.tag, patch.checked, Ok(t))
                &&& o.poster_path == patch.poster_path
                &&& o.backdrop_path == patch.backdrop_path
                &&& o.overview == patch.overview
                &&& o.imdb_id == patch.imdb_id
                &&& o.wer_streamt_es_id == patch.wer_streamt_es_id
            },
            Err(e) => tag_plan_ok(patch.tag, patch.checked, Err(e)),
        },
{
    let t = plan_tag(&patch.tag, patch.checked);
    match t {
        Ok(t) => Ok((t, patch.overrides())),
        Err(e) => Err(e),
    }
}

/// The write a patch of an episode makes: its tag toggle.
pub fn plan_episode_patch(patch: &TvEpisodePatch) -> (r: Result<Option<TagAction>, AppError>)
    ensures
        tag_plan_ok(patch.tag, patch.checked, r),
{
    plan_tag(&patch.tag, patch.checked)
}

// ---------------------------------------------------------------------------
// Trimming lists

/// How many of `len` items a configured limit keeps: none for a limit of zero
/// or less, all when the limit is larger.
pub open spec fn kept(len: nat, limit: i64) -> nat {
    if limit <= 0 {
        0
    } else if limit >= len {
        len
    } else {
        limit as nat
    }
}

/// Keeps the first `limit` items (none when `limit` is zero or less).
pub fn truncate_to<T>(v: &mut Vec<T>, limit: i64)
    ensures
        final(v)@ == old(v)@.take(kept(old(v)@.len(), limit) as int),
{
    if limit <= 0 {
        v.truncate(0);
    } else if (limit as u64) < (v.len() as u64) {
        v.truncate(limit as usize);
    }
    proof {
        assert(old(v)@.take(old(v)@.len() as int) =~= old(v)@);
    }
}

/// A movie card: the base alone, with no credits, recommendations or
/// extras.
pub open spec fn is_movie_card(m: Movie, base: VideoBase) -> bool {
    &&& m.base == base
    &&& m.directors@.len() == 0
    &&& m.credits is None
    &&& m.recommendations is None
    &&& m.original_title is None
    &&& m.tagline is None
    &&& m.belongs_to_collection is None
    &&& m.trailer_key is None
}

/// A show card: the base alone, with no seasons, credits or
/// recommendations.
pub open spec fn is_show_card(s: TvShow, base: VideoBase) -> bool {
    &&& s.base == base
    &&& s.tagline is None
    &&& s.seasons@.len() == 0
    &&& s.credits is None
    &&& s.recommendations is None
}

pub fn movie_card(base: VideoBase) -> (r: Movie)
    ensures
        is_movie_card(r, base),
{
    Movie {
        base,
        directors: Vec::new(),
        credits: None,
        recommendations: None,
        original_title: None,
        tagline: None,
        belongs_to_collection: None,
        trailer_key: None,
    }
}

pub fn show_card(base: VideoBase) -> (r: TvShow)
    ensures
        is_show_card(r, base),
{
    TvShow { base, tagline: None, seasons: Vec::new(), credits: None, recommendations: None }
}

/// A library listing of movies: at most `max_cards` of them, in order, as
/// cards.
pub fn movie_cards(bases: Vec<VideoBase>, max_cards: i64) -> (r: Vec<Movie>)
    ensures
        r@.len() == kept(bases@.len(), max_cards),
        forall|i: int| 0 <= i < r@.len() ==> is_movie_card(#[trigger] r@[i], bases@[i]),
{
    let mut rest = bases;
    truncate_to(&mut rest, max_cards);
    let ghost kept_bases = rest@;
    let mut out: Vec<Movie> = Vec::new();
    while rest.len() > 0
        invariant
            kept_bases.len() == rest@.len() + out@.len(),
            rest@ == kept_bases.take(rest@.len() as int),
            forall|k: int| 0 <= k < out@.len() ==> is_movie_card(#[trigger] out@[k], kept_bases[rest@.len() + k]),
        decreases rest@.len(),
    {
        let ghost before = out@;
        let b = rest.pop().unwrap();
        proof {
            assert(rest@ =~= kept_bases.take(rest@.len() as int));
        }
        out.insert(0, movie_card(b));
        proof {
            assert forall|k: int| 0 <= k < out@.len() implies is_movie_card(#[trigger] out@[k], kept_bases[rest@.len() + k]) by {
                if k > 0 {
                    assert(out@[k] == before[k - 1]);
                }
            }
        }
    }
    out
}

/// A library listing of shows: at most `max_cards` of them, in order, as
/// cards.
pub fn show_cards(bases: Vec<VideoBase>, max_cards: i64) -> (r: Vec<TvShow>)
    ensures
        r@.len() == kept(bases@.len(), max_cards),
        forall|i: int| 0 <= i < r@.len() ==> is_show_card(#[trigger] r@[i], bases@[i]),
{
    let mut rest = bases;
    truncate_to(&mut rest, max_cards);
    let ghost kept_bases = rest@;
    let mut out: Vec<TvShow> = Vec::new();
    while rest.len() > 0
        invariant
            kept_bases.len() == rest@.len() + out@.len(),
            rest@ == kept_bases.take(rest@.len() as int),
            forall|k: int| 0 <= k < out@.len() ==> is_show_card(#[trigger] out@[k], kept_bases[rest@.len() + k]),
        decreases rest@.len(),
    {
        let ghost before = out@;
        let b = rest.pop().unwrap();
        proof {
            assert(rest@ =~= kept_bases.take(rest@.len() as int));
        }
        out.insert(0, show_card(b));
        proof {
            assert forall|k: int| 0 <= k < out@.len() implies is_show_card(#[trigger] out@[k], kept_bases[rest@.len() + k]) by {
                if k > 0 {
                    assert(out@[k] == before[k - 1]);
                }
            }
        }
    }
    out
}

// ---------------------------------------------------------------------------
// Recommendations

/// Keeps the first `limit` recommendations of a set (none when `limit` is
/// zero or less); the paging fields are kept.
pub fn trim_recommendations(set: &mut RecommendationSet, limit: i64)
    ensures
        final(set).page == old(set).page,
        final(set).total_pages == old(set).total_pages,
        final(set).total_results == old(set).total_results,
        final(set).items@ == old(set).items@.take(kept(old(set).items@.len(), limit) as int),
{
    truncate_to(&mut set.items, limit);
}

/// The ids of a set's recommendations, in order: the titles whose local state
/// the response needs.
pub fn recommendation_ids(set: &RecommendationSet) -> (r: Vec<i64>)
    ensures
        r@.len() == set.items@.len(),
        forall|i: int| 0 <= i < r@.len() ==> r@[i] == (#[trigger] set.items@[i]).id,
{
    let mut out: Vec<i64> = Vec::new();
    let mut i: usize = 0;
    while i < set.items.len()
        invariant
            i <= set.items@.len(),
            out@.len() == i,
            forall|k: int| 0 <= k < i ==> out@[k] == (#[trigger] set.items@[k]).id,
        decreases set.items@.len() - i,
    {
        out.push(set.items[i].id);
        i = i + 1;
    }
    out
}

/// How many top recommendations are listed: the asked-for count, else the
/// configured one, and never fewer than zero.
pub fn top_limit(limit: Option<i64>, configured: i64) -> (r: i64)
    ensures
        r == (match limit {
            Some(l) => if l > 0 {
                l
            } else {
                0
            },
            None => if configured > 0 {
                configured
            } else {
                0
            },
        }),
{
    let l = match limit {
        Some(l) => l,
        None => configured,
    };
    if l > 0 {
        l
    } else {
        0
    }
}

/// A top recommendation as a movie card: a movie with the recommendation's
/// id, name, artwork, vote, release date and age rating, adult only when the
/// recommendation says so.
pub open spec fn is_top_card(m: Movie, r: StoredRecommendation) -> bool {
    &&& m.base.id == r.id
    &&& m.base.video_type == VideoType::Movie
    &&& m.base.display_name == r.display_name
    &&& m.base.poster_path == r.poster_path
    &&& m.base.backdrop_path == r.backdrop_path
    &&& m.base.vote_average == r.vote_average
    &&& m.base.release_date == r.release_date
    &&& m.base.age_rating == r.age_rating
    &&& m.base.adult == (r.adult == Some(true))
    &&& !m.base.favorite && !m.base.on_watchlist && !m.base.watched
    &&& m.base.tags@.len() == 0
    &&& m.base.overview is None
    &&& m.directors@.len() == 0
    &&& m.credits is None
    &&& m.recommendations is None
    &&& m.belongs_to_collection is None
    &&& m.trailer_key is None
}

fn top_card(r: StoredRecommendation) -> (m: Movie)
    ensures
        is_top_card(m, r),
{
    let mut base = VideoBase::default();
    base.id = r.id;
    base.video_type = VideoType::Movie;
    base.display_name = r.display_name;
    base.poster_path = r.poster_path;
    base.backdrop_path = r.backdrop_path;
    base.vote_average = r.vote_average;
    base.release_date = r.release_date;
    base.age_rating = r.age_rating;
    base.adult = match r.adult {
        Some(a) => a,
        None => false,
    };
    movie_card(base)
}

/// The top recommendations as movie cards, in ranking order.
pub fn top_cards(items: Vec<StoredRecommendation>) -> (r: Vec<Movie>)
    ensures
        r@.len() == items@.len(),
        forall|i: int| 0 <= i < r@.len() ==> is_top_card(#[trigger] r@[i], items@[i]),
{
    let mut rest = items;
    let ghost all = rest@;
    let mut out: Vec<Movie> = Vec::new();
    while rest.len() > 0
        invariant
            all.len() == rest@.len() + out@.len(),
            rest@ == all.take(rest@.len() as int),
            forall|k: int| 0 <= k < out@.len() ==> is_top_card(#[trigger] out@[k], all[rest@.len() + k]),
        decreases rest@.len(),
    {
        let ghost before = out@;
        let item = rest.pop().unwrap();
        proof {
            assert(rest@ =~= all.take(rest@.len() as int));
        }
        out.insert(0, top_card(item));
        proof {
            assert forall|k: int| 0 <= k < out@.len() implies is_top_card(#[trigger] out@[k], all[rest@.len() + k]) by {
                if k > 0 {
                    assert(out@[k] == before[k - 1]);
                }
            }
        }
    }
    out
}

// ---------------------------------------------------------------------------
// Image views

/// The backdrops endpoint's view of an image set: its id, backdrops and
/// logos, nothing else.
pub fn backdrops_view(images: Images) -> (r: Images)
    ensures
        r.id == images.id,
        r.backdrops == images.backdrops,
        r.logos == images.logos,
        r.posters@.len() == 0,
        r.tv_show_id is None,
        r.season_number is None,
{
    Images {
        id: images.id,
        tv_show_id: None,
        season_number: None,
        backdrops: images.backdrops,
        logos: images.logos,
        posters: Vec::new(),
    }
}

/// The posters endpoint's view of an image set: its id and posters.
pub fn posters_view(images: Images) -> (r: Images)
    ensures
        r.id == images.id,
        r.posters == images.posters,
        r.backdrops@.len() == 0,
        r.logos@.len() == 0,
        r.tv_show_id is None,
        r.season_number is None,
{
    Images {
        id: images.id,
        tv_show_id: None,
        season_number: None,
        backdrops: Vec::new(),
        logos: Vec::new(),
        posters: images.posters,
    }
}

/// A season's posters, labelled with the show and season they belong to.
pub fn season_posters_view(images: Images, tv_show_id: i64, season_number: i64) -> (r: Images)
    ensures
        r.id == images.id,
        r.tv_show_id == Some(tv_show_id),
        r.season_number == Some(season_number),
        r.posters == images.posters,
        r.backdrops@.len() == 0,
        r.logos@.len() == 0,
{
    Images {
        id: images.id,
        tv_show_id: Some(tv_show_id),
        season_number: Some(season_number),
        backdrops: Vec::new(),
        logos: Vec::new(),
        posters: images.posters,
    }
}

/// A person's profile pictures: the ones stored in the set's poster slot.
pub fn profiles_view(person_id: i64, images: Images) -> (r: PersonProfiles)
    ensures
        r.id == person_id,
        r.person_id == person_id,
        r.profiles == images.posters,
{
    PersonProfiles { id: person_id, person_id, profiles: images.posters }
}

// ---------------------------------------------------------------------------
// Assembling responses

/// The link from a movie to the collection it belongs to: the collection's
/// id, name and artwork, flags off.
pub fn collection_link(c: Collection) -> (r: MovieCollection)
    ensures
        r.id == c.id,
        r.name == c.name,
        r.poster_path == c.poster_path,
        r.backdrop_path == c.backdrop_path,
        !r.favorite && !r.on_watchlist && !r.watched,
{
    MovieCollection {
        id: c.id,
        poster_path: c.poster_path,
        backdrop_path: c.backdrop_path,
        favorite: false,
        on_watchlist: false,
        watched: false,
        name: c.name,
    }
}

/// The extras of a stored row, or none when there is no row.
pub fn extras_or_none(extras: Option<VideoExtras>) -> (r: VideoExtras)
    ensures
        extras matches Some(e) ==> r == e,
        extras is None ==> (r.tagline is None && r.original_title is None && r.collection_id is None
            && r.trailer_key is None && r.external_id is None && r.air_date is None
            && r.episode_count is None && !r.details_loaded),
{
    match extras {
        Some(e) => e,
        None => VideoExtras::none(),
    }
}

/// The full movie response from cached parts: not found without a stored
/// row; cast and recommendations only when configured to be shown; the
/// collection link only when the movie names a collection that is stored.
pub fn assemble_movie(
    id: i64,
    base: Option<VideoBase>,
    extras: Option<VideoExtras>,
    directors: Vec<Crew>,
    credits: Option<Credits>,
    recommendations: Option<Recommendations>,
    collection: Option<Collection>,
    show_cast: bool,
    show_recommendations: bool,
) -> (r: Result<Movie, AppError>)
    ensures
        base is None ==> (r matches Err(AppError::NotFound(m)) && m@ == named_id("movie"@, id)),
        base matches Some(b) ==> (r matches Ok(m) && {
            let e = extras_or_none_spec(extras);
            &&& m.base == b
            &&& m.directors == directors
            &&& m.credits == (if show_cast {
                credits
            } else {
                None
            })
            &&& m.recommendations == (if show_recommendations {
                recommendations
            } else {
                None
            })
            &&& m.original_title == e.original_title
            &&& m.tagline == e.tagline
            &&& m.trailer_key == e.trailer_key
            &&& (e.collection_id is None ==> m.belongs_to_collection is None)
            &&& (e.collection_id is Some ==> match collection {
                Some(c) => m.belongs_to_collection matches Some(l) && l.id == c.id && l.name == c.name
                    && l.poster_path == c.poster_path && l.backdrop_path == c.backdrop_path
                    && !l.favorite && !l.on_watchlist && !l.watched,
                None => m.belongs_to_collection is None,
            })
        }),
{
    let b = match base {
        Some(b) => b,
        None => return Err(not_found("movie", id)),
    };
    let e = extras_or_none(extras);
    let belongs_to_collection = match e.collection_id {
        Some(_) => match collection {
            Some(c) => Some(collection_link(c)),
            None => None,
        },
        None => None,
    };
    Ok(
        Movie {
            base: b,
            directors,
            credits: if show_cast {
                credits
            } else {
                None
            },
            recommendations: if show_recommendations {
                recommendations
            } else {
                None
            },
            original_title: e.original_title,
            tagline: e.tagline,
            belongs_to_collection,
            trailer_key: e.trailer_key,
        },
    )
}

/// The extras a missing row stands for.
pub open spec fn extras_or_none_spec(extras: Option<VideoExtras>) -> VideoExtras {
    match extras {
        Some(e) => e,
        None => VideoExtras {
            tagline: None,
            original_title: None,
            collection_id: None,
            trailer_key: None,
            external_id: None,
            air_date: None,
            episode_count: None,
            details_loaded: false,
        },
    }
}

/// A season as listed on its show: the season's base and extras, without
/// episodes.
pub fn season_summary(base: VideoBase, extras: Option<VideoExtras>) -> (r: TvSeason)
    ensures
        r.base == base,
        r.external_id == extras_or_none_spec(extras).external_id,
        r.air_date == extras_or_none_spec(extras).air_date,
        r.episode_count == extras_or_none_spec(extras).episode_count,
        r.episodes@.len() == 0,
{
    let e = extras_or_none(extras);
    TvSeason {
        base,
        external_id: e.external_id,
        air_date: e.air_date,
        episode_count: e.episode_count,
        episodes: Vec::new(),
    }
}

/// The full show response from cached parts: not found without a stored row;
/// cast and recommendations only when configured to be shown.
pub fn assemble_show(
    id: i64,
    base: Option<VideoBase>,
    extras: Option<VideoExtras>,
    seasons: Vec<TvSeason>,
    credits: Option<TvShowCredits>,
    recommendations: Option<TvShowRecommendations>,
    show_cast: bool,
    show_recommendations: bool,
) -> (r: Result<TvShow, AppError>)
    ensures
        base is None ==> (r matches Err(AppError::NotFound(m)) && m@ == named_id("tv show"@, id)),
        base matches Some(b) ==> (r matches Ok(s) && {
            &&& s.base == b
            &&& s.tagline == extras_or_none_spec(extras).tagline
            &&& s.seasons == seasons
            &&& s.credits == (if show_cast {
                credits
            } else {
                None
            })
            &&& s.recommendations == (if show_recommendations {
                recommendations
            } else {
                None
            })
        }),
{
    let b = match base {
        Some(b) => b,
        None => return Err(not_found("tv show", id)),
    };
    let e = extras_or_none(extras);
    Ok(
        TvShow {
            base: b,
            tagline: e.tagline,
            seasons,
            credits: if show_cast {
                credits
            } else {
                None
            },
            recommendations: if show_recommendations {
                recommendations
            } else {
                None
            },
        },
    )
}

/// The full season response from cached parts: not found without a stored
/// row.
pub fn assemble_season(
    tv_show_id: i64,
    season_number: i64,
    base: Option<VideoBase>,
    extras: Option<VideoExtras>,
    episodes: Vec<TvEpisode>,
) -> (r: Result<TvSeason, AppError>)
    ensures
        base is None ==> (r matches Err(AppError::NotFound(m)) && m@ == season_text(season_number, tv_show_id)),
        base matches Some(b) ==> (r matches Ok(s) && {
            let e = extras_or_none_spec(extras);
            &&& s.base == b
            &&& s.external_id == e.external_id
            &&& s.air_date == e.air_date
            &&& s.episode_count == e.episode_count
            &&& s.episodes == episodes
        }),
{
    let b = match base {
        Some(b) => b,
        None => {
            proof {
                reveal_strlit("");
            }
            let e = season_not_found("", season_number, tv_show_id);
            proof {
                assert(""@ + season_text(season_number, tv_show_id) =~= season_text(season_number, tv_show_id));
            }
            return Err(e);
        },
    };
    let e = extras_or_none(extras);
    Ok(
        TvSeason {
            base: b,
            external_id: e.external_id,
            air_date: e.air_date,
            episode_count: e.episode_count,
            episodes,
        },
    )
}

/// A movie's trailer: the stored trailer key, or not found when the movie
/// has none.
pub fn trailer_of(id: i64, extras: Option<VideoExtras>) -> (r: Result<Trailer, AppError>)
    ensures
        extras_or_none_spec(extras).trailer_key matches Some(k) ==> r == Ok::<Trailer, AppError>(
            Trailer { trailer_key: k },
        ),
        extras_or_none_spec(extras).trailer_key is None ==> (r matches Err(AppError::NotFound(m)) && m@
            == named_id("trailer for movie"@, id)),
{
    let e = extras_or_none(extras);
    match e.trailer_key {
        Some(trailer_key) => Ok(Trailer { trailer_key }),
        None => Err(not_found("trailer for movie", id)),
    }
}

/// The episode numbers of a season, in order: each is marked when the whole
/// season is marked watched.
pub fn episode_numbers(episodes: &Vec<TvEpisode>) -> (r: Vec<i64>)
    ensures
        r@.len() == episodes@.len(),
        forall|i: int| 0 <= i < r@.len() ==> r@[i] == (#[trigger] episodes@[i]).episode_number,
{
    let mut out: Vec<i64> = Vec::new();
    let mut i: usize = 0;
    while i < episodes.len()
        invariant
            i <= episodes@.len(),
            out@.len() == i,
            forall|k: int| 0 <= k < i ==> out@[k] == (#[trigger] episodes@[k]).episode_number,
        decreases episodes@.len() - i,
    {
        out.push(episodes[i].episode_number);
        i = i + 1;
    }
    out
}

/// A TMDB outage must not take the UI down: a failed load of TMDB's image
/// configuration counts as no image configuration.
pub fn images_or_none<T>(loaded: Result<Option<T>, AppError>) -> (r: Option<T>)
    ensures
        loaded matches Ok(v) ==> r == v,
        loaded is Err ==> r is None,
{
    match loaded {
        Ok(v) => v,
        Err(_) => None,
    }
}

} // verus!
