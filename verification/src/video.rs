//! The stored video row and the rules that govern it: how fresh TMDB metadata
//! is merged into an existing row, how user overrides and flags are written,
//! and how a row reads back as a response.
//!
//! User-owned state (flags, tags, overrides) lives beside the TMDB values and is
//! never touched by a metadata refresh; overrides win over TMDB values on read.

use vstd::prelude::*;
use vstd::string::*;

use crate::model::{Flag, Genre, Network, ProviderKind, VideoBase, VideoType, WatchProvider};
use crate::store::VideoOverrides;
use crate::text::{clone_opt, clone_strings, holds_str, str_eq};
use crate::sorting::{
    genre_order, insert_genre, insert_network, insert_provider, insert_tag, law_ordered, lemma_ordered_push,
    lemma_orders_strict, network_order, ordered, provider_order, sorted_by, tag_order,
};

verus! {

/// Everything TMDB told us about a title, ready to be written. User-owned state
/// is deliberately absent: writing fresh metadata never disturbs it.
#[derive(Debug, Clone)]
pub struct VideoUpsert {
    pub video_type: VideoType,
    pub id: i64,
    pub display_name: String,
    pub original_title: Option<String>,
    pub original_language: Option<String>,
    pub overview: Option<String>,
    pub poster_path: Option<String>,
    pub backdrop_path: Option<String>,
    pub release_date: Option<String>,
    pub runtime: Option<i32>,
    pub tagline: Option<String>,
    pub vote_average: Option<i64>,
    pub vote_count: Option<i64>,
    pub popularity: Option<u32>,
    pub adult: bool,
    pub age_rating: Option<String>,
    pub imdb_id: Option<String>,
    pub tvdb_id: Option<String>,
    pub wikidata_id: Option<String>,
    pub facebook_id: Option<String>,
    pub instagram_id: Option<String>,
    pub twitter_id: Option<String>,
    pub collection_id: Option<i64>,
    pub trailer_key: Option<String>,
    pub tv_show_id: Option<i64>,
    pub season_number: Option<i64>,
    pub external_id: Option<String>,
    pub air_date: Option<String>,
    pub episode_count: Option<i64>,
    pub details_loaded: bool,
    pub genres: Vec<Genre>,
    pub networks: Vec<Network>,
    pub watch_providers: Vec<(ProviderKind, WatchProvider)>,
}

impl Default for VideoUpsert {
    /// An upsert of an unnamed movie with id 0 and nothing else set.
    fn default() -> (r: Self)
        ensures
            r.video_type == VideoType::Movie,
            r.id == 0,
            r.display_name@.len() == 0,
            r.original_title is None && r.original_language is None && r.overview is None,
            r.poster_path is None && r.backdrop_path is None && r.release_date is None,
            r.runtime is None && r.tagline is None && r.vote_average is None,
            r.vote_count is None && r.popularity is None && !r.adult && r.age_rating is None,
            r.imdb_id is None && r.tvdb_id is None && r.wikidata_id is None,
            r.facebook_id is None && r.instagram_id is None && r.twitter_id is None,
            r.collection_id is None && r.trailer_key is None && r.tv_show_id is None,
            r.season_number is None && r.external_id is None && r.air_date is None,
            r.episode_count is None && !r.details_loaded,
            r.genres@.len() == 0 && r.networks@.len() == 0 && r.watch_providers@.len() == 0,
    {
        VideoUpsert {
            video_type: VideoType::Movie,
            id: 0,
            display_name: String::new(),
            original_title: None,
            original_language: None,
            overview: None,
            poster_path: None,
            backdrop_path: None,
            release_date: None,
            runtime: None,
            tagline: None,
            vote_average: None,
            vote_count: None,
            popularity: None,
            adult: false,
            age_rating: None,
            imdb_id: None,
            tvdb_id: None,
            wikidata_id: None,
            facebook_id: None,
            instagram_id: None,
            twitter_id: None,
            collection_id: None,
            trailer_key: None,
            tv_show_id: None,
            season_number: None,
            external_id: None,
            air_date: None,
            episode_count: None,
            details_loaded: false,
            genres: Vec::new(),
            networks: Vec::new(),
            watch_providers: Vec::new(),
        }
    }
}

/// One row of the `video` table: TMDB metadata, user overrides kept in their
/// own columns, and the user's flags.
#[derive(Debug)]
pub struct VideoRecord {
    pub video_type: VideoType,
    pub video_id: i64,
    pub display_name: String,
    pub original_title: Option<String>,
    pub original_language: Option<String>,
    pub overview: Option<String>,
    pub poster_path: Option<String>,
    pub backdrop_path: Option<String>,
    pub release_date: Option<String>,
    pub runtime: Option<i32>,
    pub tagline: Option<String>,
    pub vote_average: Option<i64>,
    pub vote_count: Option<i64>,
    pub popularity: Option<u32>,
    pub adult: bool,
    pub age_rating: Option<String>,
    pub imdb_id: Option<String>,
    pub tvdb_id: Option<String>,
    pub wikidata_id: Option<String>,
    pub facebook_id: Option<String>,
    pub instagram_id: Option<String>,
    pub twitter_id: Option<String>,
    pub emby_id: Option<i64>,
    pub emby_server_id: Option<String>,
    pub collection_id: Option<i64>,
    pub trailer_key: Option<String>,
    pub tv_show_id: Option<i64>,
    pub season_number: Option<i64>,
    pub external_id: Option<String>,
    pub air_date: Option<String>,
    pub episode_count: Option<i64>,
    pub details_loaded: bool,
    pub fetched_at: Option<String>,
    pub favorite: bool,
    pub on_watchlist: bool,
    pub watched: bool,
    pub overview_override: Option<String>,
    pub poster_path_override: Option<String>,
    pub backdrop_path_override: Option<String>,
    pub imdb_id_override: Option<String>,
    pub wer_streamt_es_id: Option<i32>,
}

/// `COALESCE(new, old)`: the new value when there is one, else the old.
pub open spec fn coalesce<T>(new: Option<T>, old: Option<T>) -> Option<T> {
    match new {
        Some(v) => Some(v),
        None => old,
    }
}

fn coalesce_str(new: &Option<String>, old: &Option<String>) -> (r: Option<String>)
    ensures
        r == coalesce(*new, *old),
{
    match new {
        Some(v) => Some(v.clone()),
        None => clone_opt(old),
    }
}

/// The row a metadata write leaves behind.
///
/// A new row takes every TMDB value and starts with no user state. An existing
/// row takes the new descriptive values, keeps an identifier or link TMDB did not
/// report this time, never goes from fully loaded back to a stub, and keeps the
/// user's flags and overrides untouched.
pub open spec fn merged_record(existing: Option<VideoRecord>, u: VideoUpsert, now: String) -> VideoRecord {
    match existing {
        None => VideoRecord {
            video_type: u.video_type,
            video_id: u.id,
            display_name: u.display_name,
            original_title: u.original_title,
            original_language: u.original_language,
            overview: u.overview,
            poster_path: u.poster_path,
            backdrop_path: u.backdrop_path,
            release_date: u.release_date,
            runtime: u.runtime,
            tagline: u.tagline,
            vote_average: u.vote_average,
            vote_count: u.vote_count,
            popularity: u.popularity,
            adult: u.adult,
            age_rating: u.age_rating,
            imdb_id: u.imdb_id,
            tvdb_id: u.tvdb_id,
            wikidata_id: u.wikidata_id,
            facebook_id: u.facebook_id,
            instagram_id: u.instagram_id,
            twitter_id: u.twitter_id,
            emby_id: None,
            emby_server_id: None,
            collection_id: u.collection_id,
            trailer_key: u.trailer_key,
            tv_show_id: u.tv_show_id,
            season_number: u.season_number,
            external_id: u.external_id,
            air_date: u.air_date,
            episode_count: u.episode_count,
            details_loaded: u.details_loaded,
            fetched_at: Some(now),
            favorite: false,
            on_watchlist: false,
            watched: false,
            overview_override: None,
            poster_path_override: None,
            backdrop_path_override: None,
            imdb_id_override: None,
            wer_streamt_es_id: None,
        },
        Some(old) => VideoRecord {
            video_type: old.video_type,
            video_id: old.video_id,
            display_name: u.display_name,
            original_title: u.original_title,
            original_language: u.original_language,
            overview: u.overview,
            poster_path: u.poster_path,
            backdrop_path: u.backdrop_path,
            release_date: u.release_date,
            runtime: u.runtime,
            tagline: u.tagline,
            vote_average: u.vote_average,
            vote_count: u.vote_count,
            popularity: u.popularity,
            adult: u.adult,
            age_rating: coalesce(u.age_rating, old.age_rating),
            imdb_id: coalesce(u.imdb_id, old.imdb_id),
            tvdb_id: coalesce(u.tvdb_id, old.tvdb_id),
            wikidata_id: coalesce(u.wikidata_id, old.wikidata_id),
            facebook_id: coalesce(u.facebook_id, old.facebook_id),
            instagram_id: coalesce(u.instagram_id, old.instagram_id),
            twitter_id: coalesce(u.twitter_id, old.twitter_id),
            emby_id: old.emby_id,
            emby_server_id: old.emby_server_id,
            collection_id: coalesce(u.collection_id, old.collection_id),
            trailer_key: coalesce(u.trailer_key, old.trailer_key),
            tv_show_id: coalesce(u.tv_show_id, old.tv_show_id),
            season_number: coalesce(u.season_number, old.season_number),
            external_id: coalesce(u.external_id, old.external_id),
            air_date: coalesce(u.air_date, old.air_date),
            episode_count: coalesce(u.episode_count, old.episode_count),
            details_loaded: old.details_loaded || u.details_loaded,
            fetched_at: Some(now),
            favorite: old.favorite,
            on_watchlist: old.on_watchlist,
            watched: old.watched,
            overview_override: old.overview_override,
            poster_path_override: old.poster_path_override,
            backdrop_path_override: old.backdrop_path_override,
            imdb_id_override: old.imdb_id_override,
            wer_streamt_es_id: old.wer_streamt_es_id,
        },
    }
}

/// Merges fresh TMDB metadata into the stored row for the same title (or
/// starts a row), stamping it with the fetch time `now`.
pub fn merge_video(existing: Option<&VideoRecord>, u: &VideoUpsert, now: String) -> (r: VideoRecord)
    requires
        existing matches Some(old) ==> old.video_type == u.video_type && old.video_id == u.id,
    ensures
        r == merged_record(
            match existing {
                Some(old) => Some(*old),
                None => None,
            },
            *u,
            now,
        ),
{
    match existing {
        None => VideoRecord {
            video_type: u.video_type,
            video_id: u.id,
            display_name: u.display_name.clone(),
            original_title: clone_opt(&u.original_title),
            original_language: clone_opt(&u.original_language),
            overview: clone_opt(&u.overview),
            poster_path: clone_opt(&u.poster_path),
            backdrop_path: clone_opt(&u.backdrop_path),
            release_date: clone_opt(&u.release_date),
            runtime: u.runtime,
            tagline: clone_opt(&u.tagline),
            vote_average: u.vote_average,
            vote_count: u.vote_count,
            popularity: u.popularity,
            adult: u.adult,
            age_rating: clone_opt(&u.age_rating),
            imdb_id: clone_opt(&u.imdb_id),
            tvdb_id: clone_opt(&u.tvdb_id),
            wikidata_id: clone_opt(&u.wikidata_id),
            facebook_id: clone_opt(&u.facebook_id),
            instagram_id: clone_opt(&u.instagram_id),
            twitter_id: clone_opt(&u.twitter_id),
            emby_id: None,
            emby_server_id: None,
            collection_id: u.collection_id,
            trailer_key: clone_opt(&u.trailer_key),
            tv_show_id: u.tv_show_id,
            season_number: u.season_number,
            external_id: clone_opt(&u.external_id),
            air_date: clone_opt(&u.air_date),
            episode_count: u.episode_count,
            details_loaded: u.details_loaded,
            fetched_at: Some(now),
            favorite: false,
            on_watchlist: false,
            watched: false,
            overview_override: None,
            poster_path_override: None,
            backdrop_path_override: None,
            imdb_id_override: None,
            wer_streamt_es_id: None,
        },
        Some(old) => VideoRecord {
            video_type: old.video_type,
            video_id: old.video_id,
            display_name: u.display_name.clone(),
            original_title: clone_opt(&u.original_title),
            original_language: clone_opt(&u.original_language),
            overview: clone_opt(&u.overview),
            poster_path: clone_opt(&u.poster_path),
            backdrop_path: clone_opt(&u.backdrop_path),
            release_date: clone_opt(&u.release_date),
            runtime: u.runtime,
            tagline: clone_opt(&u.tagline),
            vote_average: u.vote_average,
            vote_count: u.vote_count,
            popularity: u.popularity,
            adult: u.adult,
            age_rating: coalesce_str(&u.age_rating, &old.age_rating),
            imdb_id: coalesce_str(&u.imdb_id, &old.imdb_id),
            tvdb_id: coalesce_str(&u.tvdb_id, &old.tvdb_id),
            wikidata_id: coalesce_str(&u.wikidata_id, &old.wikidata_id),
            facebook_id: coalesce_str(&u.facebook_id, &old.facebook_id),
            instagram_id: coalesce_str(&u.instagram_id, &old.instagram_id),
            twitter_id: coalesce_str(&u.twitter_id, &old.twitter_id),
            emby_id: old.emby_id,
            emby_server_id: clone_opt(&old.emby_server_id),
            collection_id: match u.collection_id {
                Some(c) => Some(c),
                None => old.collection_id,
            },
            trailer_key: coalesce_str(&u.trailer_key, &old.trailer_key),
            tv_show_id: match u.tv_show_id {
                Some(c) => Some(c),
                None => old.tv_show_id,
            },
            season_number: match u.season_number {
                Some(c) => Some(c),
                None => old.season_number,
            },
            external_id: coalesce_str(&u.external_id, &old.external_id),
            air_date: coalesce_str(&u.air_date, &old.air_date),
            episode_count: match u.episode_count {
                Some(c) => Some(c),
                None => old.episode_count,
            },
            details_loaded: old.details_loaded || u.details_loaded,
            fetched_at: Some(now),
            favorite: old.favorite,
            on_watchlist: old.on_watchlist,
            watched: old.watched,
            overview_override: clone_opt(&old.overview_override),
            poster_path_override: clone_opt(&old.poster_path_override),
            backdrop_path_override: clone_opt(&old.backdrop_path_override),
            imdb_id_override: clone_opt(&old.imdb_id_override),
            wer_streamt_es_id: old.wer_streamt_es_id,
        },
    }
}

/// The value of a flag on a row.
pub open spec fn flag_value(r: VideoRecord, f: Flag) -> bool {
    match f {
        Flag::Favorite => r.favorite,
        Flag::Watched => r.watched,
        Flag::Watchlist => r.on_watchlist,
    }
}

/// `r` with the one flag `f` set to `value`.
pub open spec fn with_flag(r: VideoRecord, f: Flag, value: bool) -> VideoRecord {
    match f {
        Flag::Favorite => VideoRecord { favorite: value, ..r },
        Flag::Watched => VideoRecord { watched: value, ..r },
        Flag::Watchlist => VideoRecord { on_watchlist: value, ..r },
    }
}

/// `r` with the overrides a patch supplies written over its override columns;
/// an absent field leaves its column alone.
pub open spec fn with_overrides(r: VideoRecord, o: VideoOverrides) -> VideoRecord {
    VideoRecord {
        poster_path_override: coalesce(o.poster_path, r.poster_path_override),
        backdrop_path_override: coalesce(o.backdrop_path, r.backdrop_path_override),
        overview_override: coalesce(o.overview, r.overview_override),
        imdb_id_override: coalesce(o.imdb_id, r.imdb_id_override),
        wer_streamt_es_id: coalesce(o.wer_streamt_es_id, r.wer_streamt_es_id),
        ..r
    }
}

impl VideoRecord {
    pub fn set_flag(&mut self, flag: Flag, value: bool)
        ensures
            *final(self) == with_flag(*old(self), flag, value),
    {
        match flag {
            Flag::Favorite => self.favorite = value,
            Flag::Watched => self.watched = value,
            Flag::Watchlist => self.on_watchlist = value,
        }
    }

    /// Writes the overrides a patch carries; the TMDB columns are not touched,
    /// so a later refresh cannot undo an override.
    pub fn apply_overrides(&mut self, o: &VideoOverrides)
        ensures
            *final(self) == with_overrides(*old(self), *o),
    {
        if o.poster_path.is_some() {
            self.poster_path_override = clone_opt(&o.poster_path);
        }
        if o.backdrop_path.is_some() {
            self.backdrop_path_override = clone_opt(&o.backdrop_path);
        }
        if o.overview.is_some() {
            self.overview_override = clone_opt(&o.overview);
        }
        if o.imdb_id.is_some() {
            self.imdb_id_override = clone_opt(&o.imdb_id);
        }
        if o.wer_streamt_es_id.is_some() {
            self.wer_streamt_es_id = o.wer_streamt_es_id;
        }
    }
}

/// The scalar fields of a response read from a row: overrides win over the
/// TMDB values for the overview, poster, backdrop and IMDb id.
pub open spec fn reads_as(b: VideoBase, r: VideoRecord) -> bool {
    &&& b.id == r.video_id
    &&& b.video_type == r.video_type
    &&& b.display_name == r.display_name
    &&& b.poster_path == coalesce(r.poster_path_override, r.poster_path)
    &&& b.backdrop_path == coalesce(r.backdrop_path_override, r.backdrop_path)
    &&& b.overview == coalesce(r.overview_override, r.overview)
    &&& b.imdb_id == coalesce(r.imdb_id_override, r.imdb_id)
    &&& b.favorite == r.favorite
    &&& b.on_watchlist == r.on_watchlist
    &&& b.watched == r.watched
    &&& b.release_date == r.release_date
    &&& b.season_number == r.season_number
    &&& b.tv_show_id == r.tv_show_id
    &&& b.vote_average == r.vote_average
    &&& b.vote_count == r.vote_count
    &&& b.popularity == r.popularity
    &&& b.age_rating == r.age_rating
    &&& b.runtime == r.runtime
    &&& b.adult == r.adult
    &&& b.wer_streamt_es_id == r.wer_streamt_es_id
    &&& b.tvdb_id == r.tvdb_id
    &&& b.emby_id == r.emby_id
    &&& b.emby_server_id == r.emby_server_id
    &&& b.wikidata_id == r.wikidata_id
    &&& b.facebook_id == r.facebook_id
    &&& b.instagram_id == r.instagram_id
    &&& b.twitter_id == r.twitter_id
}

/// A genre link read alongside a row: the video it belongs to and the genre.
#[derive(Debug)]
pub struct GenreRow {
    pub video_type: VideoType,
    pub video_id: i64,
    pub genre: Genre,
}

#[derive(Debug)]
pub struct NetworkRow {
    pub video_type: VideoType,
    pub video_id: i64,
    pub network: Network,
}

#[derive(Debug)]
pub struct TagRow {
    pub video_type: VideoType,
    pub video_id: i64,
    pub tag: String,
}

/// A watch-provider link as stored: the kind is the raw stored tag.
#[derive(Debug)]
pub struct ProviderRow {
    pub video_type: VideoType,
    pub video_id: i64,
    pub kind: String,
    pub provider: WatchProvider,
}

/// The tags, in stored order, of the rows belonging to `id`.
pub open spec fn tags_for(rows: Seq<TagRow>, t: VideoType, id: i64) -> Seq<String>
    decreases rows.len(),
{
    if rows.len() == 0 {
        Seq::empty()
    } else if rows.last().video_type == t && rows.last().video_id == id {
        tags_for(rows.drop_last(), t, id).push(rows.last().tag)
    } else {
        tags_for(rows.drop_last(), t, id)
    }
}

pub open spec fn genres_for(rows: Seq<GenreRow>, t: VideoType, id: i64) -> Seq<Genre>
    decreases rows.len(),
{
    if rows.len() == 0 {
        Seq::empty()
    } else if rows.last().video_type == t && rows.last().video_id == id {
        genres_for(rows.drop_last(), t, id).push(rows.last().genre)
    } else {
        genres_for(rows.drop_last(), t, id)
    }
}

pub open spec fn networks_for(rows: Seq<NetworkRow>, t: VideoType, id: i64) -> Seq<Network>
    decreases rows.len(),
{
    if rows.len() == 0 {
        Seq::empty()
    } else if rows.last().video_type == t && rows.last().video_id == id {
        networks_for(rows.drop_last(), t, id).push(rows.last().network)
    } else {
        networks_for(rows.drop_last(), t, id)
    }
}

/// The providers, in stored order, of the rows belonging to `id` whose stored
/// kind is `kind`. A row of an unknown kind belongs to no list.
pub open spec fn providers_for(rows: Seq<ProviderRow>, t: VideoType, id: i64, kind: ProviderKind) -> Seq<
    WatchProvider,
>
    decreases rows.len(),
{
    if rows.len() == 0 {
        Seq::empty()
    } else if rows.last().video_type == t && rows.last().video_id == id && crate::model::provider_kind_of(rows.last().kind@)
        == Some(kind) {
        providers_for(rows.drop_last(), t, id, kind).push(rows.last().provider)
    } else {
        providers_for(rows.drop_last(), t, id, kind)
    }
}

/// A response fully read from a row and the relation rows read with it.
pub open spec fn hydrated_from(
    b: VideoBase,
    r: VideoRecord,
    tags: Seq<TagRow>,
    genres: Seq<GenreRow>,
    networks: Seq<NetworkRow>,
    providers: Seq<ProviderRow>,
) -> bool {
    &&& reads_as(b, r)
    &&& b.tags@ == ordered(tags_for(tags, r.video_type, r.video_id), tag_order())
    &&& b.genres@ == ordered(genres_for(genres, r.video_type, r.video_id), genre_order())
    &&& b.networks@ == ordered(networks_for(networks, r.video_type, r.video_id), network_order())
    &&& b.buy_watch_providers@ == ordered(
        providers_for(providers, r.video_type, r.video_id, ProviderKind::Buy),
        provider_order(),
    )
    &&& b.rent_watch_providers@ == ordered(
        providers_for(providers, r.video_type, r.video_id, ProviderKind::Rent),
        provider_order(),
    )
    &&& b.flatrate_watch_providers@ == ordered(
        providers_for(providers, r.video_type, r.video_id, ProviderKind::Flatrate),
        provider_order(),
    )
    &&& b.emby_video_codecs@.len() == 0
}

fn same_video(a: VideoType, b: VideoType) -> (r: bool)
    ensures
        r == (a == b),
{
    a == b
}

fn collect_tags(rows: &Vec<TagRow>, t: VideoType, id: i64) -> (r: Vec<String>)
    ensures
        r@ == ordered(tags_for(rows@, t, id), tag_order()),
{
    let mut out: Vec<String> = Vec::new();
    let mut i: usize = 0;
    while i < rows.len()
        invariant
            i <= rows@.len(),
            out@ == ordered(tags_for(rows@.take(i as int), t, id), tag_order()),
        decreases rows@.len() - i,
    {
        assert(rows@.take(i + 1).drop_last() =~= rows@.take(i as int));
        if same_video(rows[i].video_type, t) && rows[i].video_id == id {
            proof {
                lemma_ordered_push(tags_for(rows@.take(i as int), t, id), rows@[i as int].tag, tag_order());
            }
            insert_tag(&mut out, rows[i].tag.clone());
        }
        i = i + 1;
    }
    assert(rows@.take(rows@.len() as int) =~= rows@);
    out
}

fn collect_genres(rows: &Vec<GenreRow>, t: VideoType, id: i64) -> (r: Vec<Genre>)
    ensures
        r@ == ordered(genres_for(rows@, t, id), genre_order()),
{
    let mut out: Vec<Genre> = Vec::new();
    let mut i: usize = 0;
    while i < rows.len()
        invariant
            i <= rows@.len(),
            out@ == ordered(genres_for(rows@.take(i as int), t, id), genre_order()),
        decreases rows@.len() - i,
    {
        assert(rows@.take(i + 1).drop_last() =~= rows@.take(i as int));
        if same_video(rows[i].video_type, t) && rows[i].video_id == id {
            proof {
                lemma_ordered_push(genres_for(rows@.take(i as int), t, id), rows@[i as int].genre, genre_order());
            }
            insert_genre(&mut out, rows[i].genre.clone());
        }
        i = i + 1;
    }
    assert(rows@.take(rows@.len() as int) =~= rows@);
    out
}

fn collect_networks(rows: &Vec<NetworkRow>, t: VideoType, id: i64) -> (r: Vec<Network>)
    ensures
        r@ == ordered(networks_for(rows@, t, id), network_order()),
{
    let mut out: Vec<Network> = Vec::new();
    let mut i: usize = 0;
    while i < rows.len()
        invariant
            i <= rows@.len(),
            out@ == ordered(networks_for(rows@.take(i as int), t, id), network_order()),
        decreases rows@.len() - i,
    {
        assert(rows@.take(i + 1).drop_last() =~= rows@.take(i as int));
        if same_video(rows[i].video_type, t) && rows[i].video_id == id {
            proof {
                lemma_ordered_push(networks_for(rows@.take(i as int), t, id), rows@[i as int].network, network_order());
            }
            insert_network(&mut out, rows[i].network.clone());
        }
        i = i + 1;
    }
    assert(rows@.take(rows@.len() as int) =~= rows@);
    out
}

fn same_kind(a: Option<ProviderKind>, b: ProviderKind) -> (r: bool)
    ensures
        r == (a == Some(b)),
{
    match a {
        Some(k) => k == b,
        None => false,
    }
}

fn collect_providers(rows: &Vec<ProviderRow>, t: VideoType, id: i64, kind: ProviderKind) -> (r: Vec<
    WatchProvider,
>)
    ensures
        r@ == ordered(providers_for(rows@, t, id, kind), provider_order()),
{
    let mut out: Vec<WatchProvider> = Vec::new();
    let mut i: usize = 0;
    while i < rows.len()
        invariant
            i <= rows@.len(),
            out@ == ordered(providers_for(rows@.take(i as int), t, id, kind), provider_order()),
        decreases rows@.len() - i,
    {
        assert(rows@.take(i + 1).drop_last() =~= rows@.take(i as int));
        if same_video(rows[i].video_type, t) && rows[i].video_id == id && same_kind(
            ProviderKind::from_tag(rows[i].kind.as_str()),
            kind,
        ) {
            proof {
                lemma_ordered_push(providers_for(rows@.take(i as int), t, id, kind), rows@[i as int].provider, provider_order());
            }
            insert_provider(&mut out, rows[i].provider.clone());
        }
        i = i + 1;
    }
    assert(rows@.take(rows@.len() as int) =~= rows@);
    out
}

/// The movie- and season-specific fields a row carries beside its base.
#[derive(Debug, Clone)]
pub struct VideoExtras {
    pub tagline: Option<String>,
    pub original_title: Option<String>,
    pub collection_id: Option<i64>,
    pub trailer_key: Option<String>,
    pub external_id: Option<String>,
    pub air_date: Option<String>,
    pub episode_count: Option<i64>,
    pub details_loaded: bool,
}

impl Default for VideoExtras {
    fn default() -> (r: Self)
        ensures
            r.tagline is None,
            r.original_title is None,
            r.collection_id is None,
            r.trailer_key is None,
            r.external_id is None,
            r.air_date is None,
            r.episode_count is None,
            !r.details_loaded,
    {
        VideoExtras {
            tagline: None,
            original_title: None,
            collection_id: None,
            trailer_key: None,
            external_id: None,
            air_date: None,
            episode_count: None,
            details_loaded: false,
        }
    }
}

impl VideoExtras {
    /// The extras of a row that does not exist: nothing set, not loaded.
    pub fn none() -> (r: VideoExtras)
        ensures
            r.tagline is None,
            r.original_title is None,
            r.collection_id is None,
            r.trailer_key is None,
            r.external_id is None,
            r.air_date is None,
            r.episode_count is None,
            !r.details_loaded,
    {
        VideoExtras {
            tagline: None,
            original_title: None,
            collection_id: None,
            trailer_key: None,
            external_id: None,
            air_date: None,
            episode_count: None,
            details_loaded: false,
        }
    }
}

impl VideoRecord {
    /// The extras this row carries.
    pub fn extras(&self) -> (r: VideoExtras)
        ensures
            r.tagline == self.tagline,
            r.original_title == self.original_title,
            r.collection_id == self.collection_id,
            r.trailer_key == self.trailer_key,
            r.external_id == self.external_id,
            r.air_date == self.air_date,
            r.episode_count == self.episode_count,
            r.details_loaded == self.details_loaded,
    {
        VideoExtras {
            tagline: clone_opt(&self.tagline),
            original_title: clone_opt(&self.original_title),
            collection_id: self.collection_id,
            trailer_key: clone_opt(&self.trailer_key),
            external_id: clone_opt(&self.external_id),
            air_date: clone_opt(&self.air_date),
            episode_count: self.episode_count,
            details_loaded: self.details_loaded,
        }
    }
}

impl VideoRecord {
    /// The response fields this row reads as, before relations are attached.
    pub fn to_base(&self) -> (b: VideoBase)
        ensures
            reads_as(b, *self),
            b.tags@.len() == 0,
            b.genres@.len() == 0,
            b.networks@.len() == 0,
            b.buy_watch_providers@.len() == 0,
            b.rent_watch_providers@.len() == 0,
            b.flatrate_watch_providers@.len() == 0,
            b.emby_video_codecs@.len() == 0,
    {
        VideoBase {
            id: self.video_id,
            video_type: self.video_type,
            display_name: self.display_name.clone(),
            poster_path: coalesce_str(&self.poster_path_override, &self.poster_path),
            backdrop_path: coalesce_str(&self.backdrop_path_override, &self.backdrop_path),
            favorite: self.favorite,
            on_watchlist: self.on_watchlist,
            watched: self.watched,
            release_date: clone_opt(&self.release_date),
            season_number: self.season_number,
            tv_show_id: self.tv_show_id,
            overview: coalesce_str(&self.overview_override, &self.overview),
            genres: Vec::new(),
            networks: Vec::new(),
            vote_average: self.vote_average,
            vote_count: self.vote_count,
            popularity: self.popularity,
            tags: Vec::new(),
            age_rating: clone_opt(&self.age_rating),
            runtime: self.runtime,
            adult: self.adult,
            wer_streamt_es_id: self.wer_streamt_es_id,
            imdb_id: coalesce_str(&self.imdb_id_override, &self.imdb_id),
            tvdb_id: clone_opt(&self.tvdb_id),
            emby_id: self.emby_id,
            emby_server_id: clone_opt(&self.emby_server_id),
            emby_video_codecs: Vec::new(),
            buy_watch_providers: Vec::new(),
            rent_watch_providers: Vec::new(),
            flatrate_watch_providers: Vec::new(),
            wikidata_id: clone_opt(&self.wikidata_id),
            facebook_id: clone_opt(&self.facebook_id),
            instagram_id: clone_opt(&self.instagram_id),
            twitter_id: clone_opt(&self.twitter_id),
        }
    }
}

/// A response reads back its tags in text order, its genres and networks by
/// name and each watch-provider list by display priority and then name; each
/// list is a reordering of the stored rows for that title.
pub proof fn law_hydrated_lists_sorted(
    b: VideoBase,
    r: VideoRecord,
    tags: Seq<TagRow>,
    genres: Seq<GenreRow>,
    networks: Seq<NetworkRow>,
    providers: Seq<ProviderRow>,
)
    requires
        hydrated_from(b, r, tags, genres, networks, providers),
    ensures
        sorted_by(b.tags@, tag_order()),
        b.tags@.to_multiset() == tags_for(tags, r.video_type, r.video_id).to_multiset(),
        sorted_by(b.genres@, genre_order()),
        b.genres@.to_multiset() == genres_for(genres, r.video_type, r.video_id).to_multiset(),
        sorted_by(b.networks@, network_order()),
        b.networks@.to_multiset() == networks_for(networks, r.video_type, r.video_id).to_multiset(),
        sorted_by(b.flatrate_watch_providers@, provider_order()),
        b.flatrate_watch_providers@.to_multiset() == providers_for(
            providers,
            r.video_type,
            r.video_id,
            ProviderKind::Flatrate,
        ).to_multiset(),
        sorted_by(b.rent_watch_providers@, provider_order()),
        b.rent_watch_providers@.to_multiset() == providers_for(
            providers,
            r.video_type,
            r.video_id,
            ProviderKind::Rent,
        ).to_multiset(),
        sorted_by(b.buy_watch_providers@, provider_order()),
        b.buy_watch_providers@.to_multiset() == providers_for(
            providers,
            r.video_type,
            r.video_id,
            ProviderKind::Buy,
        ).to_multiset(),
{
    lemma_orders_strict();
    law_ordered(tags_for(tags, r.video_type, r.video_id), tag_order());
    law_ordered(genres_for(genres, r.video_type, r.video_id), genre_order());
    law_ordered(networks_for(networks, r.video_type, r.video_id), network_order());
    law_ordered(providers_for(providers, r.video_type, r.video_id, ProviderKind::Flatrate), provider_order());
    law_ordered(providers_for(providers, r.video_type, r.video_id, ProviderKind::Rent), provider_order());
    law_ordered(providers_for(providers, r.video_type, r.video_id, ProviderKind::Buy), provider_order());
}

/// Reads rows back as responses, attaching to each its tags, genres, networks
/// and watch providers (grouped by kind) from the relation rows read with it.
pub fn hydrate(
    rows: &Vec<VideoRecord>,
    tags: &Vec<TagRow>,
    genres: &Vec<GenreRow>,
    networks: &Vec<NetworkRow>,
    providers: &Vec<ProviderRow>,
) -> (r: Vec<VideoBase>)
    ensures
        r@.len() == rows@.len(),
        forall|i: int|
            0 <= i < rows@.len() ==> hydrated_from(
                #[trigger] r@[i],
                rows@[i],
                tags@,
                genres@,
                networks@,
                providers@,
            ),
{
    let mut out: Vec<VideoBase> = Vec::new();
    let mut i: usize = 0;
    while i < rows.len()
        invariant
            i <= rows@.len(),
            out@.len() == i,
            forall|j: int|
                0 <= j < i ==> hydrated_from(
                    #[trigger] out@[j],
                    rows@[j],
                    tags@,
                    genres@,
                    networks@,
                    providers@,
                ),
        decreases rows@.len() - i,
    {
        let row = &rows[i];
        let mut base = row.to_base();
        base.tags = collect_tags(tags, row.video_type, row.video_id);
        base.genres = collect_genres(genres, row.video_type, row.video_id);
        base.networks = collect_networks(networks, row.video_type, row.video_id);
        base.buy_watch_providers = collect_providers(
            providers,
            row.video_type,
            row.video_id,
            ProviderKind::Buy,
        );
        base.rent_watch_providers = collect_providers(
            providers,
            row.video_type,
            row.video_id,
            ProviderKind::Rent,
        );
        base.flatrate_watch_providers = collect_providers(
            providers,
            row.video_type,
            row.video_id,
            ProviderKind::Flatrate,
        );
        out.push(base);
        i = i + 1;
    }
    out
}

/// `v` without every string that reads as `t`, order kept.
pub open spec fn without_str(v: Seq<String>, t: Seq<char>) -> Seq<String>
    decreases v.len(),
{
    if v.len() == 0 {
        Seq::empty()
    } else if v.last()@ == t {
        without_str(v.drop_last(), t)
    } else {
        without_str(v.drop_last(), t).push(v.last())
    }
}

pub proof fn lemma_without_str_excludes(v: Seq<String>, t: Seq<char>)
    ensures
        !holds_str(without_str(v, t), t),
        forall|u: Seq<char>| u != t ==> (holds_str(without_str(v, t), u) <==> holds_str(v, u)),
    decreases v.len(),
{
    if v.len() > 0 {
        let p = v.drop_last();
        lemma_without_str_excludes(p, t);
        let w = without_str(v, t);
        let wp = without_str(p, t);
        assert forall|u: Seq<char>| u != t implies (holds_str(w, u) <==> holds_str(v, u)) by {
            if holds_str(v, u) {
                let i = choose|i: int| 0 <= i < v.len() && #[trigger] v[i]@ == u;
                if i < p.len() {
                    assert(p[i]@ == u);
                    assert(holds_str(p, u));
                    assert(holds_str(wp, u));
                    let k = choose|k: int| 0 <= k < wp.len() && #[trigger] wp[k]@ == u;
                    if v.last()@ != t {
                        assert(w[k] == wp[k]);
                    }
                } else {
                    assert(w[w.len() - 1] == v.last());
                }
            }
            if holds_str(w, u) {
                let k = choose|k: int| 0 <= k < w.len() && #[trigger] w[k]@ == u;
                if v.last()@ != t && k == w.len() - 1 {
                    assert(v[v.len() - 1]@ == u);
                } else {
                    assert(wp[k]@ == u);
                    assert(holds_str(p, u));
                    let i = choose|i: int| 0 <= i < p.len() && #[trigger] p[i]@ == u;
                    assert(v[i] == p[i]);
                }
            }
        }
        if holds_str(w, t) {
            let k = choose|k: int| 0 <= k < w.len() && #[trigger] w[k]@ == t;
            if v.last()@ != t && k == w.len() - 1 {
            } else {
                assert(wp[k]@ == t);
            }
        }
    } else {
        assert(without_str(v, t) =~= Seq::<String>::empty());
    }
}

/// A title's tag set after one tag is switched on (added once) or off (every
/// copy removed); the rest of the set is unchanged.
pub open spec fn toggled_tags(v: Seq<String>, t: String, on: bool) -> Seq<String> {
    if on {
        if holds_str(v, t@) {
            v
        } else {
            v.push(t)
        }
    } else {
        without_str(v, t@)
    }
}

pub proof fn lemma_without_absent(v: Seq<String>, t: Seq<char>)
    requires
        !holds_str(v, t),
    ensures
        without_str(v, t) == v,
    decreases v.len(),
{
    if v.len() > 0 {
        let p = v.drop_last();
        assert(!holds_str(p, t)) by {
            if holds_str(p, t) {
                let k = choose|k: int| 0 <= k < p.len() && #[trigger] p[k]@ == t;
                assert(v[k] == p[k]);
            }
        }
        assert(v[v.len() - 1]@ != t);
        lemma_without_absent(p, t);
        assert(p.push(v.last()) =~= v);
    }
}

/// Switches one tag of a title on or off, as inserting it into (or deleting it
/// from) the title's tag set does.
pub fn toggle_tag(tags: &Vec<String>, tag: &str, on: bool) -> (r: Vec<String>)
    ensures
        exists|t: String| t@ == tag@ && r@ == toggled_tags(tags@, t, on),
{
    let mut found = false;
    let mut out: Vec<String> = Vec::new();
    let mut i: usize = 0;
    while i < tags.len()
        invariant
            i <= tags@.len(),
            found == holds_str(tags@.take(i as int), tag@),
            out@ == without_str(tags@.take(i as int), tag@),
        decreases tags@.len() - i,
    {
        let ghost p = tags@.take(i as int);
        assert(tags@.take(i + 1).drop_last() =~= p);
        let same = str_eq(tags[i].as_str(), tag);
        if same {
            found = true;
        } else {
            out.push(tags[i].clone());
        }
        proof {
            let q = tags@.take(i + 1);
            if holds_str(q, tag@) && !same {
                let k = choose|k: int| 0 <= k < q.len() && #[trigger] q[k]@ == tag@;
                assert(k < p.len());
                assert(p[k] == q[k]);
            }
            if holds_str(p, tag@) {
                let k = choose|k: int| 0 <= k < p.len() && #[trigger] p[k]@ == tag@;
                assert(q[k] == p[k]);
            }
            if same {
                assert(q[i as int]@ == tag@);
            }
        }
        i = i + 1;
    }
    assert(tags@.take(tags@.len() as int) =~= tags@);
    let owned = String::from_str(tag);
    if on {
        if found {
            clone_strings(tags)
        } else {
            let mut r = clone_strings(tags);
            r.push(owned);
            r
        }
    } else {
        out
    }
}

pub proof fn lemma_toggled_tags_membership(v: Seq<String>, t: String, on: bool)
    ensures
        holds_str(toggled_tags(v, t, on), t@) == on,
        forall|u: Seq<char>|
            u != t@ ==> (holds_str(toggled_tags(v, t, on), u) <==> holds_str(v, u)),
{
    lemma_without_str_excludes(v, t@);
    if on && !holds_str(v, t@) {
        let w = v.push(t);
        assert(w[w.len() - 1]@ == t@);
        assert forall|u: Seq<char>| u != t@ implies (holds_str(w, u) <==> holds_str(v, u)) by {
            if holds_str(v, u) {
                let i = choose|i: int| 0 <= i < v.len() && #[trigger] v[i]@ == u;
                assert(w[i] == v[i]);
            }
            if holds_str(w, u) {
                let i = choose|i: int| 0 <= i < w.len() && #[trigger] w[i]@ == u;
                assert(v[i] == w[i]);
            }
        }
    }
}

/// Whether a response carries the tag `t`.
pub open spec fn has_tag(b: VideoBase, t: Seq<char>) -> bool {
    holds_str(b.tags@, t)
}

/// The titles a tag filter keeps: those carrying the tag, or with `negate`
/// those not carrying it; order kept.
pub open spec fn tag_filtered(v: Seq<VideoBase>, t: Seq<char>, negate: bool) -> Seq<VideoBase>
    decreases v.len(),
{
    if v.len() == 0 {
        Seq::empty()
    } else if has_tag(v.last(), t) != negate {
        tag_filtered(v.drop_last(), t, negate).push(v.last())
    } else {
        tag_filtered(v.drop_last(), t, negate)
    }
}

fn carries_tag(b: &VideoBase, tag: &str) -> (r: bool)
    ensures
        r == has_tag(*b, tag@),
{
    let mut i: usize = 0;
    while i < b.tags.len()
        invariant
            i <= b.tags@.len(),
            forall|j: int| 0 <= j < i ==> b.tags@[j]@ != tag@,
        decreases b.tags@.len() - i,
    {
        if str_eq(b.tags[i].as_str(), tag) {
            assert(b.tags@[i as int]@ == tag@);
            return true;
        }
        i = i + 1;
    }
    false
}

/// Library listing by tag: the titles carrying `tag`, or with `negate` the
/// titles not carrying it, in listing order.
pub fn filter_by_tag(videos: Vec<VideoBase>, tag: &str, negate: bool) -> (r: Vec<VideoBase>)
    ensures
        r@ == tag_filtered(videos@, tag@, negate),
{
    let ghost all = videos@;
    assert(all.len() == videos.len());
    let mut rest = videos;
    let mut out: Vec<VideoBase> = Vec::new();
    let mut i: usize = 0;
    while rest.len() > 0
        invariant
            i <= all.len(),
            all.len() <= usize::MAX,
            i + rest@.len() == all.len(),
            rest@ == all.skip(i as int),
            out@ == tag_filtered(all.take(i as int), tag@, negate),
        decreases rest@.len(),
    {
        assert(all.take(i + 1).drop_last() =~= all.take(i as int));
        let b = rest.remove(0);
        assert(b == all[i as int]);
        if carries_tag(&b, tag) != negate {
            out.push(b);
        }
        i = i + 1;
        assert(rest@ =~= all.skip(i as int));
    }
    assert(all.take(i as int) =~= all);
    out
}

/// The value of a flag on a response.
pub open spec fn base_flag(b: VideoBase, f: Flag) -> bool {
    match f {
        Flag::Favorite => b.favorite,
        Flag::Watched => b.watched,
        Flag::Watchlist => b.on_watchlist,
    }
}

/// The titles whose flag `f` is set, in listing order.
pub open spec fn flag_filtered(v: Seq<VideoBase>, f: Flag) -> Seq<VideoBase>
    decreases v.len(),
{
    if v.len() == 0 {
        Seq::empty()
    } else if base_flag(v.last(), f) {
        flag_filtered(v.drop_last(), f).push(v.last())
    } else {
        flag_filtered(v.drop_last(), f)
    }
}

/// Library listing by flag (the favourites list, for instance).
pub fn filter_by_flag(videos: Vec<VideoBase>, flag: Flag) -> (r: Vec<VideoBase>)
    ensures
        r@ == flag_filtered(videos@, flag),
{
    let ghost all = videos@;
    assert(all.len() == videos.len());
    let mut rest = videos;
    let mut out: Vec<VideoBase> = Vec::new();
    let mut i: usize = 0;
    while rest.len() > 0
        invariant
            i <= all.len(),
            all.len() <= usize::MAX,
            i + rest@.len() == all.len(),
            rest@ == all.skip(i as int),
            out@ == flag_filtered(all.take(i as int), flag),
        decreases rest@.len(),
    {
        assert(all.take(i + 1).drop_last() =~= all.take(i as int));
        let b = rest.remove(0);
        assert(b == all[i as int]);
        let on = match flag {
            Flag::Favorite => b.favorite,
            Flag::Watched => b.watched,
            Flag::Watchlist => b.on_watchlist,
        };
        if on {
            out.push(b);
        }
        i = i + 1;
        assert(rest@ =~= all.skip(i as int));
    }
    assert(all.take(i as int) =~= all);
    out
}

/// The entry of the shared genre table after a genre is written: keyed by its
/// id, the written name replacing any earlier one for every title linked to it.
pub open spec fn stored_genre(g: Genre) -> Genre {
    Genre { id: g.id, genre_id: Some(g.id), name: g.name }
}

pub fn genre_entry(g: &Genre) -> (r: Genre)
    ensures
        r == stored_genre(*g),
{
    Genre { id: g.id, genre_id: Some(g.id), name: g.name.clone() }
}

/// The entry of the shared network table after a network is written over the
/// stored entry with its id: the written name wins, and each detail the write
/// lacks keeps its stored value.
pub open spec fn merged_network(stored: Option<Network>, n: Network) -> Network {
    match stored {
        Some(s) => Network {
            id: n.id,
            network_id: Some(n.id),
            name: n.name,
            logo_path: coalesce(n.logo_path, s.logo_path),
            origin_country: coalesce(n.origin_country, s.origin_country),
            headquarters: coalesce(n.headquarters, s.headquarters),
            homepage: coalesce(n.homepage, s.homepage),
        },
        None => Network {
            id: n.id,
            network_id: Some(n.id),
            name: n.name,
            logo_path: n.logo_path,
            origin_country: n.origin_country,
            headquarters: n.headquarters,
            homepage: n.homepage,
        },
    }
}

pub fn merge_network(stored: Option<&Network>, n: &Network) -> (r: Network)
    ensures
        r == merged_network(
            match stored {
                Some(s) => Some(*s),
                None => None,
            },
            *n,
        ),
{
    match stored {
        Some(s) => Network {
            id: n.id,
            network_id: Some(n.id),
            name: n.name.clone(),
            logo_path: coalesce_str(&n.logo_path, &s.logo_path),
            origin_country: coalesce_str(&n.origin_country, &s.origin_country),
            headquarters: coalesce_str(&n.headquarters, &s.headquarters),
            homepage: coalesce_str(&n.homepage, &s.homepage),
        },
        None => Network {
            id: n.id,
            network_id: Some(n.id),
            name: n.name.clone(),
            logo_path: clone_opt(&n.logo_path),
            origin_country: clone_opt(&n.origin_country),
            headquarters: clone_opt(&n.headquarters),
            homepage: clone_opt(&n.homepage),
        },
    }
}

/// The entry of the shared watch-provider table after a provider is written
/// over the stored entry with its id: the written name wins, and a logo or
/// display priority the write lacks keeps its stored value.
pub open spec fn merged_provider(stored: Option<WatchProvider>, p: WatchProvider) -> WatchProvider {
    match stored {
        Some(s) => WatchProvider {
            provider_id: p.provider_id,
            provider_name: p.provider_name,
            logo_path: coalesce(p.logo_path, s.logo_path),
            display_priority: coalesce(p.display_priority, s.display_priority),
        },
        None => p,
    }
}

pub fn merge_provider(stored: Option<&WatchProvider>, p: &WatchProvider) -> (r: WatchProvider)
    ensures
        r == merged_provider(
            match stored {
                Some(s) => Some(*s),
                None => None,
            },
            *p,
        ),
{
    match stored {
        Some(s) => WatchProvider {
            provider_id: p.provider_id,
            provider_name: p.provider_name.clone(),
            logo_path: coalesce_str(&p.logo_path, &s.logo_path),
            display_priority: match p.display_priority {
                Some(d) => Some(d),
                None => s.display_priority,
            },
        },
        None => p.clone(),
    }
}

/// The relation rows a metadata write replaces for its title.
#[derive(Debug)]
pub struct RelationWrites {
    pub genres: Vec<GenreRow>,
    pub networks: Vec<NetworkRow>,
    /// The new provider rows, or `None` to keep the stored ones.
    pub providers: Option<Vec<ProviderRow>>,
}

/// Genres and networks are replaced wholesale, since TMDB is the authority
/// on them; providers are replaced only when the write carries some, so a
/// fetch whose provider lookup failed keeps the stored providers.
pub open spec fn relations_written(u: VideoUpsert, w: RelationWrites) -> bool {
    &&& w.genres@.len() == u.genres@.len()
    &&& forall|i: int|
        0 <= i < w.genres@.len() ==> {
            let g = #[trigger] w.genres@[i];
            g.video_type == u.video_type && g.video_id == u.id && g.genre == u.genres@[i]
        }
    &&& w.networks@.len() == u.networks@.len()
    &&& forall|i: int|
        0 <= i < w.networks@.len() ==> {
            let n = #[trigger] w.networks@[i];
            n.video_type == u.video_type && n.video_id == u.id && n.network == u.networks@[i]
        }
    &&& if u.watch_providers@.len() == 0 {
        w.providers is None
    } else {
        w.providers matches Some(p) && p@.len() == u.watch_providers@.len() && forall|i: int|
            0 <= i < p@.len() ==> {
                let r = #[trigger] p@[i];
                &&& r.video_type == u.video_type
                &&& r.video_id == u.id
                &&& crate::model::provider_kind_of(r.kind@) == Some(u.watch_providers@[i].0)
                &&& r.provider == u.watch_providers@[i].1
            }
    }
}

pub fn relation_writes(u: &VideoUpsert) -> (w: RelationWrites)
    ensures
        relations_written(*u, w),
{
    let mut genres: Vec<GenreRow> = Vec::new();
    let mut i: usize = 0;
    while i < u.genres.len()
        invariant
            i <= u.genres@.len(),
            genres@.len() == i,
            forall|k: int|
                0 <= k < i ==> {
                    let g = #[trigger] genres@[k];
                    g.video_type == u.video_type && g.video_id == u.id && g.genre == u.genres@[k]
                },
        decreases u.genres@.len() - i,
    {
        genres.push(GenreRow { video_type: u.video_type, video_id: u.id, genre: u.genres[i].clone() });
        i = i + 1;
    }
    let mut networks: Vec<NetworkRow> = Vec::new();
    let mut j: usize = 0;
    while j < u.networks.len()
        invariant
            j <= u.networks@.len(),
            networks@.len() == j,
            forall|k: int|
                0 <= k < j ==> {
                    let n = #[trigger] networks@[k];
                    n.video_type == u.video_type && n.video_id == u.id && n.network == u.networks@[k]
                },
        decreases u.networks@.len() - j,
    {
        networks.push(
            NetworkRow { video_type: u.video_type, video_id: u.id, network: u.networks[j].clone() },
        );
        j = j + 1;
    }
    let providers = if u.watch_providers.len() == 0 {
        None
    } else {
        let mut rows: Vec<ProviderRow> = Vec::new();
        let mut k: usize = 0;
        while k < u.watch_providers.len()
            invariant
                k <= u.watch_providers@.len(),
                rows@.len() == k,
                forall|m: int|
                    0 <= m < k ==> {
                        let r = #[trigger] rows@[m];
                        &&& r.video_type == u.video_type
                        &&& r.video_id == u.id
                        &&& crate::model::provider_kind_of(r.kind@) == Some(u.watch_providers@[m].0)
                        &&& r.provider == u.watch_providers@[m].1
                    },
            decreases u.watch_providers@.len() - k,
        {
            let (kind, provider) = &u.watch_providers[k];
            let name = String::from_str(kind.as_str());
            proof {
                crate::model::lemma_provider_kind_round_trip(*kind);
            }
            rows.push(
                ProviderRow {
                    video_type: u.video_type,
                    video_id: u.id,
                    kind: name,
                    provider: provider.clone(),
                },
            );
            k = k + 1;
        }
        Some(rows)
    };
    RelationWrites { genres, networks, providers }
}

} // verus!
