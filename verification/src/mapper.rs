//! How TMDB payloads become the library's models and store records.

use vstd::prelude::*;

use vstd::string::*;

use crate::dto::{
    best_trailer_index, brief_name, tvdb_text, TmdbCast, TmdbCrew, TmdbEpisode, TmdbExternalIds,
    TmdbGenre, TmdbImage, TmdbMovie, TmdbMovieBrief, TmdbNetwork, TmdbPaged, TmdbPerson,
    TmdbProvider, TmdbSeason, TmdbSeasonBrief, TmdbTvShow, TmdbVideos, TmdbWatchProviders,
};
use crate::model::{
    video_type_name, Cast, Crew, Genre, Image, Network, PersonBase, ProviderKind, TvEpisode,
    VideoType, WatchProvider,
};
use crate::people::PersonUpsert;
use crate::store::{RecommendationSet, StoredRecommendation};
use crate::text::{clone_opt, concat, decimal, decimal_text, str_eq};
use crate::video::{coalesce, VideoUpsert};

verus! {

/// A genre as the API presents it.
pub open spec fn genre_of(dto: TmdbGenre) -> Genre {
    Genre { id: dto.id, genre_id: Some(dto.id), name: dto.name }
}

/// A network as the API presents it.
pub open spec fn network_of(dto: TmdbNetwork) -> Network {
    Network {
        id: dto.id,
        network_id: Some(dto.id),
        name: dto.name,
        logo_path: dto.logo_path,
        origin_country: dto.origin_country,
        headquarters: dto.headquarters,
        homepage: dto.homepage,
    }
}

pub fn genre(dto: &TmdbGenre) -> (r: Genre)
    ensures
        r == genre_of(*dto),
{
    Genre { id: dto.id, genre_id: Some(dto.id), name: dto.name.clone() }
}

pub fn network(dto: &TmdbNetwork) -> (r: Network)
    ensures
        r == network_of(*dto),
{
    Network {
        id: dto.id,
        network_id: Some(dto.id),
        name: dto.name.clone(),
        logo_path: clone_opt(&dto.logo_path),
        origin_country: clone_opt(&dto.origin_country),
        headquarters: clone_opt(&dto.headquarters),
        homepage: clone_opt(&dto.homepage),
    }
}

/// The provider as the API presents it.
pub open spec fn provider_of(p: TmdbProvider) -> WatchProvider {
    WatchProvider {
        logo_path: p.logo_path,
        provider_id: p.provider_id,
        provider_name: p.provider_name,
        display_priority: p.display_priority,
    }
}

/// The providers of one list, each labelled with `kind`.
pub open spec fn labelled(s: Seq<TmdbProvider>, kind: ProviderKind) -> Seq<
    (ProviderKind, WatchProvider),
> {
    s.map_values(|p: TmdbProvider| (kind, provider_of(p)))
}

/// The index of the entry for `region`.
pub open spec fn region_entry(
    s: Seq<(String, crate::dto::TmdbWatchProviderRegion)>,
    region: Seq<char>,
) -> Option<int>
    decreases s.len(),
{
    if s.len() == 0 {
        None
    } else {
        match region_entry(s.drop_last(), region) {
            Some(i) => Some(i),
            None => if s.last().0@ == region {
                Some(s.len() - 1)
            } else {
                None
            },
        }
    }
}

proof fn lemma_region_entry_prefix(
    s: Seq<(String, crate::dto::TmdbWatchProviderRegion)>,
    region: Seq<char>,
    k: int,
)
    requires
        0 < k <= s.len(),
        region_entry(s.take(k), region) is Some,
    ensures
        region_entry(s, region) == region_entry(s.take(k), region),
    decreases s.len() - k,
{
    if k < s.len() {
        let t = s.drop_last();
        assert(t.take(k) =~= s.take(k));
        lemma_region_entry_prefix(t, region, k);
    } else {
        assert(s.take(k) =~= s);
    }
}

/// The providers of `region`: flat-rate, then rentals, then purchases; none
/// when TMDB lists nothing for the region.
pub open spec fn providers_for_region(dto: TmdbWatchProviders, region: Seq<char>) -> Seq<
    (ProviderKind, WatchProvider),
> {
    match region_entry(dto.results@, region) {
        Some(i) => {
            let e = dto.results@[i].1;
            labelled(e.flatrate@, ProviderKind::Flatrate) + labelled(e.rent@, ProviderKind::Rent)
                + labelled(e.buy@, ProviderKind::Buy)
        },
        None => Seq::empty(),
    }
}

fn append_labelled(
    out: &mut Vec<(ProviderKind, WatchProvider)>,
    list: &Vec<TmdbProvider>,
    kind: ProviderKind,
)
    ensures
        final(out)@ == old(out)@ + labelled(list@, kind),
{
    let mut i: usize = 0;
    let ghost start = out@;
    while i < list.len()
        invariant
            i <= list@.len(),
            out@ == start + labelled(list@.take(i as int), kind),
        decreases list@.len() - i,
    {
        let p = &list[i];
        let w = WatchProvider {
            logo_path: clone_opt(&p.logo_path),
            provider_id: p.provider_id,
            provider_name: p.provider_name.clone(),
            display_priority: p.display_priority,
        };
        out.push((kind, w));
        i = i + 1;
        assert(labelled(list@.take(i as int), kind) =~= labelled(list@.take(i - 1), kind).push(
            (kind, provider_of(list@[i - 1])),
        ));
    }
    assert(list@.take(i as int) =~= list@);
}

/// Flattens TMDB's per-region provider map down to the configured region:
/// flat-rate providers, then rentals, then purchases.
pub fn watch_providers(dto: &TmdbWatchProviders, region: &str) -> (r: Vec<
    (ProviderKind, WatchProvider),
>)
    ensures
        r@ == providers_for_region(*dto, region@),
{
    let mut i: usize = 0;
    while i < dto.results.len()
        invariant
            i <= dto.results@.len(),
            region_entry(dto.results@.take(i as int), region@) is None,
        decreases dto.results@.len() - i,
    {
        assert(dto.results@.take(i + 1).drop_last() =~= dto.results@.take(i as int));
        if str_eq(dto.results[i].0.as_str(), region) {
            proof {
                lemma_region_entry_prefix(dto.results@, region@, i as int + 1);
            }
            let entry = &dto.results[i].1;
            let mut out: Vec<(ProviderKind, WatchProvider)> = Vec::new();
            append_labelled(&mut out, &entry.flatrate, ProviderKind::Flatrate);
            append_labelled(&mut out, &entry.rent, ProviderKind::Rent);
            append_labelled(&mut out, &entry.buy, ProviderKind::Buy);
            assert(out@ =~= labelled(entry.flatrate@, ProviderKind::Flatrate) + labelled(
                entry.rent@,
                ProviderKind::Rent,
            ) + labelled(entry.buy@, ProviderKind::Buy));
            return out;
        }
        i = i + 1;
    }
    assert(dto.results@.take(i as int) =~= dto.results@);
    let out: Vec<(ProviderKind, WatchProvider)> = Vec::new();
    assert(out@ =~= providers_for_region(*dto, region@));
    out
}

/// An image as the API presents it.
pub open spec fn image_of(dto: TmdbImage) -> Image {
    Image {
        aspect_ratio: dto.aspect_ratio,
        height: dto.height,
        file_path: dto.file_path,
        vote_average: dto.vote_average,
        vote_count: dto.vote_count,
        width: dto.width,
    }
}

pub fn image(dto: &TmdbImage) -> (r: Image)
    ensures
        r == image_of(*dto),
{
    Image {
        aspect_ratio: dto.aspect_ratio,
        height: dto.height,
        file_path: clone_opt(&dto.file_path),
        vote_average: dto.vote_average,
        vote_count: dto.vote_count,
        width: dto.width,
    }
}

pub fn images(list: &Vec<TmdbImage>) -> (r: Vec<Image>)
    ensures
        r@ == list@.map_values(|d: TmdbImage| image_of(d)),
{
    let mut out: Vec<Image> = Vec::new();
    let mut i: usize = 0;
    while i < list.len()
        invariant
            i <= list@.len(),
            out@ == list@.take(i as int).map_values(|d: TmdbImage| image_of(d)),
        decreases list@.len() - i,
    {
        out.push(image(&list[i]));
        i = i + 1;
        assert(list@.take(i as int).map_values(|d: TmdbImage| image_of(d)) =~= list@.take(
            i - 1,
        ).map_values(|d: TmdbImage| image_of(d)).push(image_of(list@[i - 1])));
    }
    assert(list@.take(i as int) =~= list@);
    out
}

/// The person of a cast entry as the API presents it.
pub open spec fn cast_person_of(dto: TmdbCast) -> PersonBase {
    PersonBase {
        id: dto.id,
        adult: dto.adult,
        gender: dto.gender,
        known_for_department: dto.known_for_department,
        name: dto.name,
        original_name: dto.original_name,
        popularity: dto.popularity,
        profile_path: dto.profile_path,
        credit_id: dto.credit_id,
    }
}

/// The person of a crew entry as the API presents it.
pub open spec fn crew_person_of(dto: TmdbCrew) -> PersonBase {
    PersonBase {
        id: dto.id,
        adult: dto.adult,
        gender: dto.gender,
        known_for_department: dto.known_for_department,
        name: dto.name,
        original_name: dto.original_name,
        popularity: dto.popularity,
        profile_path: dto.profile_path,
        credit_id: dto.credit_id,
    }
}

pub open spec fn cast_of(dto: TmdbCast) -> Cast {
    Cast {
        person: cast_person_of(dto),
        cast_id: dto.cast_id,
        character: dto.character,
        order: dto.order,
    }
}

pub open spec fn crew_of(dto: TmdbCrew) -> Crew {
    Crew { person: crew_person_of(dto), department: dto.department, job: dto.job }
}

pub fn cast(dto: &TmdbCast) -> (r: Cast)
    ensures
        r == cast_of(*dto),
{
    Cast {
        person: PersonBase {
            id: dto.id,
            adult: dto.adult,
            gender: dto.gender,
            known_for_department: clone_opt(&dto.known_for_department),
            name: dto.name.clone(),
            original_name: clone_opt(&dto.original_name),
            popularity: dto.popularity,
            profile_path: clone_opt(&dto.profile_path),
            credit_id: clone_opt(&dto.credit_id),
        },
        cast_id: dto.cast_id,
        character: clone_opt(&dto.character),
        order: dto.order,
    }
}

pub fn crew(dto: &TmdbCrew) -> (r: Crew)
    ensures
        r == crew_of(*dto),
{
    Crew {
        person: PersonBase {
            id: dto.id,
            adult: dto.adult,
            gender: dto.gender,
            known_for_department: clone_opt(&dto.known_for_department),
            name: dto.name.clone(),
            original_name: clone_opt(&dto.original_name),
            popularity: dto.popularity,
            profile_path: clone_opt(&dto.profile_path),
            credit_id: clone_opt(&dto.credit_id),
        },
        department: clone_opt(&dto.department),
        job: clone_opt(&dto.job),
    }
}

/// The cast of a credits payload, in order.
pub fn cast_list(list: &Vec<TmdbCast>) -> (r: Vec<Cast>)
    ensures
        r@ == list@.map_values(|d: TmdbCast| cast_of(d)),
{
    let mut out: Vec<Cast> = Vec::new();
    let mut i: usize = 0;
    while i < list.len()
        invariant
            i <= list@.len(),
            out@ == list@.take(i as int).map_values(|d: TmdbCast| cast_of(d)),
        decreases list@.len() - i,
    {
        out.push(cast(&list[i]));
        i = i + 1;
        assert(list@.take(i as int).map_values(|d: TmdbCast| cast_of(d)) =~= list@.take(
            i - 1,
        ).map_values(|d: TmdbCast| cast_of(d)).push(cast_of(list@[i - 1])));
    }
    assert(list@.take(i as int) =~= list@);
    out
}

/// The crew of a credits payload, in order.
pub fn crew_list(list: &Vec<TmdbCrew>) -> (r: Vec<Crew>)
    ensures
        r@ == list@.map_values(|d: TmdbCrew| crew_of(d)),
{
    let mut out: Vec<Crew> = Vec::new();
    let mut i: usize = 0;
    while i < list.len()
        invariant
            i <= list@.len(),
            out@ == list@.take(i as int).map_values(|d: TmdbCrew| crew_of(d)),
        decreases list@.len() - i,
    {
        out.push(crew(&list[i]));
        i = i + 1;
        assert(list@.take(i as int).map_values(|d: TmdbCrew| crew_of(d)) =~= list@.take(
            i - 1,
        ).map_values(|d: TmdbCrew| crew_of(d)).push(crew_of(list@[i - 1])));
    }
    assert(list@.take(i as int) =~= list@);
    out
}

/// A freshly fetched episode: TMDB's fields, its crew in order, and no local
/// state yet (flags off, no tags).
pub open spec fn is_episode_of(e: TvEpisode, dto: TmdbEpisode) -> bool {
    &&& e.id == dto.id
    &&& e.air_date == dto.air_date
    &&& e.episode_number == dto.episode_number
    &&& e.crew@ == dto.crew@.map_values(|d: TmdbCrew| crew_of(d))
    &&& e.name == dto.name
    &&& e.overview == dto.overview
    &&& e.production_code == dto.production_code
    &&& e.season_number == dto.season_number
    &&& e.still_path == dto.still_path
    &&& e.vote_average == dto.vote_average
    &&& e.vote_count == dto.vote_count
    &&& !e.on_watchlist && !e.favorite && !e.watched
    &&& e.tags@.len() == 0
}

pub fn episode(dto: &TmdbEpisode) -> (r: TvEpisode)
    ensures
        is_episode_of(r, *dto),
{
    TvEpisode {
        id: dto.id,
        air_date: clone_opt(&dto.air_date),
        episode_number: dto.episode_number,
        crew: crew_list(&dto.crew),
        name: clone_opt(&dto.name),
        overview: clone_opt(&dto.overview),
        production_code: clone_opt(&dto.production_code),
        season_number: dto.season_number,
        still_path: clone_opt(&dto.still_path),
        vote_average: dto.vote_average,
        vote_count: dto.vote_count,
        on_watchlist: false,
        favorite: false,
        watched: false,
        tags: Vec::new(),
    }
}

/// The episodes of a fetched season, in order.
pub fn episodes(list: &Vec<TmdbEpisode>) -> (r: Vec<TvEpisode>)
    ensures
        r@.len() == list@.len(),
        forall|i: int| 0 <= i < r@.len() ==> is_episode_of(#[trigger] r@[i], list@[i]),
{
    let mut out: Vec<TvEpisode> = Vec::new();
    let mut i: usize = 0;
    while i < list.len()
        invariant
            i <= list@.len(),
            out@.len() == i,
            forall|k: int| 0 <= k < i ==> is_episode_of(#[trigger] out@[k], list@[k]),
        decreases list@.len() - i,
    {
        out.push(episode(&list[i]));
        i = i + 1;
    }
    out
}

/// The trailer a video list yields: the key of its best trailer, if any.
pub open spec fn trailer_key_of(v: Option<TmdbVideos>) -> Option<String> {
    match v {
        Some(v) => match best_trailer_index(v.results@) {
            Some(i) => v.results@[i].key,
            None => None,
        },
        None => None,
    }
}

fn trailer_key(v: &Option<TmdbVideos>) -> (r: Option<String>)
    ensures
        r == trailer_key_of(*v),
{
    match v {
        Some(v) => v.best_trailer_key(),
        None => None,
    }
}

/// The external identifiers of a payload, none when it carries none.
pub open spec fn external_of(x: Option<TmdbExternalIds>) -> TmdbExternalIds {
    match x {
        Some(x) => x,
        None => TmdbExternalIds {
            imdb_id: None,
            tvdb_id: None,
            wikidata_id: None,
            facebook_id: None,
            instagram_id: None,
            twitter_id: None,
        },
    }
}

fn external(x: &Option<TmdbExternalIds>) -> (r: TmdbExternalIds)
    ensures
        r.imdb_id == external_of(*x).imdb_id,
        r.wikidata_id == external_of(*x).wikidata_id,
        r.facebook_id == external_of(*x).facebook_id,
        r.instagram_id == external_of(*x).instagram_id,
        r.twitter_id == external_of(*x).twitter_id,
{
    match x {
        Some(x) => TmdbExternalIds {
            imdb_id: clone_opt(&x.imdb_id),
            tvdb_id: None,
            wikidata_id: clone_opt(&x.wikidata_id),
            facebook_id: clone_opt(&x.facebook_id),
            instagram_id: clone_opt(&x.instagram_id),
            twitter_id: clone_opt(&x.twitter_id),
        },
        None => TmdbExternalIds::empty(),
    }
}

/// The TVDB id a payload's external identifiers carry, as text.
fn tvdb_of(x: &Option<TmdbExternalIds>) -> (r: Option<String>)
    ensures
        r == tvdb_text(external_of(*x).tvdb_id),
{
    match x {
        Some(x) => x.tvdb_id_string(),
        None => None,
    }
}

fn genres(list: &Vec<TmdbGenre>) -> (r: Vec<Genre>)
    ensures
        r@ == list@.map_values(|d: TmdbGenre| genre_of(d)),
{
    let mut out: Vec<Genre> = Vec::new();
    let mut i: usize = 0;
    while i < list.len()
        invariant
            i <= list@.len(),
            out@ == list@.take(i as int).map_values(|d: TmdbGenre| genre_of(d)),
        decreases list@.len() - i,
    {
        out.push(genre(&list[i]));
        i = i + 1;
        assert(list@.take(i as int).map_values(|d: TmdbGenre| genre_of(d)) =~= list@.take(
            i - 1,
        ).map_values(|d: TmdbGenre| genre_of(d)).push(genre_of(list@[i - 1])));
    }
    assert(list@.take(i as int) =~= list@);
    out
}

fn networks(list: &Vec<TmdbNetwork>) -> (r: Vec<Network>)
    ensures
        r@ == list@.map_values(|d: TmdbNetwork| network_of(d)),
{
    let mut out: Vec<Network> = Vec::new();
    let mut i: usize = 0;
    while i < list.len()
        invariant
            i <= list@.len(),
            out@ == list@.take(i as int).map_values(|d: TmdbNetwork| network_of(d)),
        decreases list@.len() - i,
    {
        out.push(network(&list[i]));
        i = i + 1;
        assert(list@.take(i as int).map_values(|d: TmdbNetwork| network_of(d)) =~= list@.take(
            i - 1,
        ).map_values(|d: TmdbNetwork| network_of(d)).push(network_of(list@[i - 1])));
    }
    assert(list@.take(i as int) =~= list@);
    out
}

/// The upsert a fetched movie is written as.
pub open spec fn is_movie_upsert(
    u: VideoUpsert,
    dto: TmdbMovie,
    age_rating: Option<String>,
    providers: Seq<(ProviderKind, WatchProvider)>,
    details_loaded: bool,
) -> bool {
    let x = external_of(dto.external_ids);
    &&& u.video_type == VideoType::Movie
    &&& u.id == dto.id
    &&& u.display_name@ == (match dto.title {
        Some(t) => t@,
        None => Seq::<char>::empty(),
    })
    &&& u.original_title == dto.original_title
    &&& u.original_language == dto.original_language
    &&& u.overview == dto.overview
    &&& u.poster_path == dto.poster_path
    &&& u.backdrop_path == dto.backdrop_path
    &&& u.release_date == dto.release_date
    &&& u.runtime == dto.runtime
    &&& u.tagline == dto.tagline
    &&& u.vote_average == dto.vote_average
    &&& u.vote_count == dto.vote_count
    &&& u.popularity == dto.popularity
    &&& u.adult == dto.adult
    &&& u.age_rating == age_rating
    &&& u.imdb_id == coalesce(dto.imdb_id, x.imdb_id)
    &&& u.tvdb_id == tvdb_text(x.tvdb_id)
    &&& u.wikidata_id == x.wikidata_id
    &&& u.facebook_id == x.facebook_id
    &&& u.instagram_id == x.instagram_id
    &&& u.twitter_id == x.twitter_id
    &&& u.collection_id == (match dto.belongs_to_collection {
        Some(c) => Some(c.id),
        None => None,
    })
    &&& u.trailer_key == trailer_key_of(dto.videos)
    &&& u.tv_show_id is None
    &&& u.season_number is None
    &&& u.external_id is None
    &&& u.air_date is None
    &&& u.episode_count is None
    &&& u.details_loaded == details_loaded
    &&& u.genres@ == dto.genres@.map_values(|d: TmdbGenre| genre_of(d))
    &&& u.networks@.len() == 0
    &&& u.watch_providers@ == providers
}

pub fn movie_upsert(
    dto: &TmdbMovie,
    age_rating: Option<String>,
    providers: Vec<(ProviderKind, WatchProvider)>,
    details_loaded: bool,
) -> (r: VideoUpsert)
    ensures
        is_movie_upsert(r, *dto, age_rating, providers@, details_loaded),
{
    let x = external(&dto.external_ids);
    let tvdb_id = tvdb_of(&dto.external_ids);
    VideoUpsert {
        video_type: VideoType::Movie,
        id: dto.id,
        display_name: match &dto.title {
            Some(t) => t.clone(),
            None => String::new(),
        },
        original_title: clone_opt(&dto.original_title),
        original_language: clone_opt(&dto.original_language),
        overview: clone_opt(&dto.overview),
        poster_path: clone_opt(&dto.poster_path),
        backdrop_path: clone_opt(&dto.backdrop_path),
        release_date: clone_opt(&dto.release_date),
        runtime: dto.runtime,
        tagline: clone_opt(&dto.tagline),
        vote_average: dto.vote_average,
        vote_count: dto.vote_count,
        popularity: dto.popularity,
        adult: dto.adult,
        age_rating,
        imdb_id: match &dto.imdb_id {
            Some(i) => Some(i.clone()),
            None => x.imdb_id,
        },
        tvdb_id,
        wikidata_id: x.wikidata_id,
        facebook_id: x.facebook_id,
        instagram_id: x.instagram_id,
        twitter_id: x.twitter_id,
        collection_id: match &dto.belongs_to_collection {
            Some(c) => Some(c.id),
            None => None,
        },
        trailer_key: trailer_key(&dto.videos),
        tv_show_id: None,
        season_number: None,
        external_id: None,
        air_date: None,
        episode_count: None,
        details_loaded,
        genres: genres(&dto.genres),
        networks: Vec::new(),
        watch_providers: providers,
    }
}

/// The upsert a fetched show is written as: its first air date stands for
/// its release date and its first episode run time for its runtime.
pub open spec fn is_tv_upsert(
    u: VideoUpsert,
    dto: TmdbTvShow,
    age_rating: Option<String>,
    providers: Seq<(ProviderKind, WatchProvider)>,
    details_loaded: bool,
) -> bool {
    let x = external_of(dto.external_ids);
    &&& u.video_type == VideoType::Tvshow
    &&& u.id == dto.id
    &&& u.display_name@ == (match dto.name {
        Some(t) => t@,
        None => Seq::<char>::empty(),
    })
    &&& u.original_title == dto.original_name
    &&& u.original_language == dto.original_language
    &&& u.overview == dto.overview
    &&& u.poster_path == dto.poster_path
    &&& u.backdrop_path == dto.backdrop_path
    &&& u.release_date == dto.first_air_date
    &&& u.runtime == (if dto.episode_run_time@.len() > 0 {
        Some(dto.episode_run_time@[0])
    } else {
        None
    })
    &&& u.tagline == dto.tagline
    &&& u.vote_average == dto.vote_average
    &&& u.vote_count == dto.vote_count
    &&& u.popularity == dto.popularity
    &&& u.adult == dto.adult
    &&& u.age_rating == age_rating
    &&& u.imdb_id == x.imdb_id
    &&& u.tvdb_id == tvdb_text(x.tvdb_id)
    &&& u.wikidata_id == x.wikidata_id
    &&& u.facebook_id == x.facebook_id
    &&& u.instagram_id == x.instagram_id
    &&& u.twitter_id == x.twitter_id
    &&& u.collection_id is None
    &&& u.trailer_key == trailer_key_of(dto.videos)
    &&& u.tv_show_id is None
    &&& u.season_number is None
    &&& u.external_id is None
    &&& u.air_date is None
    &&& u.episode_count is None
    &&& u.details_loaded == details_loaded
    &&& u.genres@ == dto.genres@.map_values(|d: TmdbGenre| genre_of(d))
    &&& u.networks@ == dto.networks@.map_values(|d: TmdbNetwork| network_of(d))
    &&& u.watch_providers@ == providers
}

pub fn tv_upsert(
    dto: &TmdbTvShow,
    age_rating: Option<String>,
    providers: Vec<(ProviderKind, WatchProvider)>,
    details_loaded: bool,
) -> (r: VideoUpsert)
    ensures
        is_tv_upsert(r, *dto, age_rating, providers@, details_loaded),
{
    let x = external(&dto.external_ids);
    let tvdb_id = tvdb_of(&dto.external_ids);
    VideoUpsert {
        video_type: VideoType::Tvshow,
        id: dto.id,
        display_name: match &dto.name {
            Some(t) => t.clone(),
            None => String::new(),
        },
        original_title: clone_opt(&dto.original_name),
        original_language: clone_opt(&dto.original_language),
        overview: clone_opt(&dto.overview),
        poster_path: clone_opt(&dto.poster_path),
        backdrop_path: clone_opt(&dto.backdrop_path),
        release_date: clone_opt(&dto.first_air_date),
        runtime: if dto.episode_run_time.len() > 0 {
            Some(dto.episode_run_time[0])
        } else {
            None
        },
        tagline: clone_opt(&dto.tagline),
        vote_average: dto.vote_average,
        vote_count: dto.vote_count,
        popularity: dto.popularity,
        adult: dto.adult,
        age_rating,
        imdb_id: x.imdb_id,
        tvdb_id,
        wikidata_id: x.wikidata_id,
        facebook_id: x.facebook_id,
        instagram_id: x.instagram_id,
        twitter_id: x.twitter_id,
        collection_id: None,
        trailer_key: trailer_key(&dto.videos),
        tv_show_id: None,
        season_number: None,
        external_id: None,
        air_date: None,
        episode_count: None,
        details_loaded,
        genres: genres(&dto.genres),
        networks: networks(&dto.networks),
        watch_providers: providers,
    }
}

/// The stable key a season without a TMDB id is stored under.
pub open spec fn synthetic_season_id(tv_show_id: i64, season_number: i64) -> int {
    -(tv_show_id * 1000 + season_number)
}

/// Whether the synthetic key of a season fits in an `i64`.
pub open spec fn synthetic_id_fits(tv_show_id: i64, season_number: i64) -> bool {
    i64::MIN < tv_show_id * 1000 + season_number <= i64::MAX
}

fn synthetic_id(tv_show_id: i64, season_number: i64) -> (r: i64)
    requires
        synthetic_id_fits(tv_show_id, season_number),
    ensures
        r == synthetic_season_id(tv_show_id, season_number),
{
    let k = tv_show_id as i128 * 1000 + season_number as i128;
    -(k as i64)
}

/// The name a season without one is given: `Season` and its number.
pub open spec fn season_name(name: Option<String>, season_number: i64) -> Seq<char> {
    match name {
        Some(n) => n@,
        None => "Season "@ + decimal_text(season_number as int),
    }
}

fn season_display_name(name: &Option<String>, season_number: i64) -> (r: String)
    ensures
        r@ == season_name(*name, season_number),
{
    match name {
        Some(n) => n.clone(),
        None => {
            let d = decimal(season_number);
            concat("Season ", d.as_str())
        },
    }
}

/// The shallow season row written from a show's season list: absent for a
/// season without a number; keyed by its TMDB id, or else by the synthetic key.
pub open spec fn is_season_brief_upsert(u: VideoUpsert, tv_show_id: i64, dto: TmdbSeasonBrief, s: i64) -> bool {
    &&& u.video_type == VideoType::Tvseason
    &&& u.id == (match dto.id {
        Some(i) => i as int,
        None => synthetic_season_id(tv_show_id, s),
    })
    &&& u.display_name@ == season_name(dto.name, s)
    &&& u.overview == dto.overview
    &&& u.poster_path == dto.poster_path
    &&& u.release_date == dto.air_date
    &&& u.air_date == dto.air_date
    &&& u.episode_count == dto.episode_count
    &&& u.season_number == Some(s)
    &&& u.tv_show_id == Some(tv_show_id)
    &&& u.vote_average == dto.vote_average
    &&& !u.details_loaded
    &&& u.original_title is None && u.original_language is None && u.backdrop_path is None
    &&& u.runtime is None && u.tagline is None && u.vote_count is None && u.popularity is None
    &&& !u.adult && u.age_rating is None && u.imdb_id is None && u.tvdb_id is None
    &&& u.wikidata_id is None && u.facebook_id is None && u.instagram_id is None
    &&& u.twitter_id is None && u.collection_id is None && u.trailer_key is None
    &&& u.external_id is None
    &&& u.genres@.len() == 0 && u.networks@.len() == 0 && u.watch_providers@.len() == 0
}

pub fn season_brief_upsert(tv_show_id: i64, dto: &TmdbSeasonBrief) -> (r: Option<VideoUpsert>)
    requires
        dto.season_number matches Some(s) ==> synthetic_id_fits(tv_show_id, s),
    ensures
        dto.season_number is None ==> r is None,
        dto.season_number matches Some(s) ==> (r matches Some(u) && is_season_brief_upsert(
            u,
            tv_show_id,
            *dto,
            s,
        )),
{
    let season_number = match dto.season_number {
        Some(s) => s,
        None => return None,
    };
    let fallback = synthetic_id(tv_show_id, season_number);
    Some(
        VideoUpsert {
            video_type: VideoType::Tvseason,
            id: match dto.id {
                Some(i) => i,
                None => fallback,
            },
            display_name: season_display_name(&dto.name, season_number),
            original_title: None,
            original_language: None,
            overview: clone_opt(&dto.overview),
            poster_path: clone_opt(&dto.poster_path),
            backdrop_path: None,
            release_date: clone_opt(&dto.air_date),
            runtime: None,
            tagline: None,
            vote_average: dto.vote_average,
            vote_count: None,
            popularity: None,
            adult: false,
            age_rating: None,
            imdb_id: None,
            tvdb_id: None,
            wikidata_id: None,
            facebook_id: None,
            instagram_id: None,
            twitter_id: None,
            collection_id: None,
            trailer_key: None,
            tv_show_id: Some(tv_show_id),
            season_number: Some(season_number),
            external_id: None,
            air_date: clone_opt(&dto.air_date),
            episode_count: dto.episode_count,
            details_loaded: false,
            genres: Vec::new(),
            networks: Vec::new(),
            watch_providers: Vec::new(),
        },
    )
}

/// The season number a full season fetch is stored under (0 when TMDB omits
/// it).
pub open spec fn season_number_of(dto: TmdbSeason) -> i64 {
    match dto.season_number {
        Some(s) => s,
        None => 0,
    }
}

/// The full season row written from a season fetch: marked loaded, with its
/// episode count taken from its episode list.
pub open spec fn is_season_upsert(u: VideoUpsert, tv_show_id: i64, dto: TmdbSeason) -> bool {
    let s = season_number_of(dto);
    &&& u.video_type == VideoType::Tvseason
    &&& u.id == (match dto.id {
        Some(i) => i as int,
        None => synthetic_season_id(tv_show_id, s),
    })
    &&& u.display_name@ == season_name(dto.name, s)
    &&& u.overview == dto.overview
    &&& u.poster_path == dto.poster_path
    &&& u.release_date == dto.air_date
    &&& u.air_date == dto.air_date
    &&& u.episode_count == Some(dto.episodes@.len() as i64)
    &&& u.season_number == Some(s)
    &&& u.tv_show_id == Some(tv_show_id)
    &&& u.external_id == dto.external_id
    &&& u.vote_average == dto.vote_average
    &&& u.details_loaded
    &&& u.original_title is None && u.original_language is None && u.backdrop_path is None
    &&& u.runtime is None && u.tagline is None && u.vote_count is None && u.popularity is None
    &&& !u.adult && u.age_rating is None && u.imdb_id is None && u.tvdb_id is None
    &&& u.wikidata_id is None && u.facebook_id is None && u.instagram_id is None
    &&& u.twitter_id is None && u.collection_id is None && u.trailer_key is None
    &&& u.genres@.len() == 0 && u.networks@.len() == 0 && u.watch_providers@.len() == 0
}

pub fn season_upsert(tv_show_id: i64, dto: &TmdbSeason) -> (r: VideoUpsert)
    requires
        synthetic_id_fits(tv_show_id, season_number_of(*dto)),
        dto.episodes@.len() <= i64::MAX,
    ensures
        is_season_upsert(r, tv_show_id, *dto),
{
    let season_number = match dto.season_number {
        Some(s) => s,
        None => 0,
    };
    let fallback = synthetic_id(tv_show_id, season_number);
    VideoUpsert {
        video_type: VideoType::Tvseason,
        id: match dto.id {
            Some(i) => i,
            None => fallback,
        },
        display_name: season_display_name(&dto.name, season_number),
        original_title: None,
        original_language: None,
        overview: clone_opt(&dto.overview),
        poster_path: clone_opt(&dto.poster_path),
        backdrop_path: None,
        release_date: clone_opt(&dto.air_date),
        runtime: None,
        tagline: None,
        vote_average: dto.vote_average,
        vote_count: None,
        popularity: None,
        adult: false,
        age_rating: None,
        imdb_id: None,
        tvdb_id: None,
        wikidata_id: None,
        facebook_id: None,
        instagram_id: None,
        twitter_id: None,
        collection_id: None,
        trailer_key: None,
        tv_show_id: Some(tv_show_id),
        season_number: Some(season_number),
        external_id: clone_opt(&dto.external_id),
        air_date: clone_opt(&dto.air_date),
        episode_count: Some(dto.episodes.len() as i64),
        details_loaded: true,
        genres: Vec::new(),
        networks: Vec::new(),
        watch_providers: Vec::new(),
    }
}

/// The person write a fetched person is stored as.
pub fn person_upsert(dto: &TmdbPerson) -> (r: PersonUpsert)
    ensures
        r == (PersonUpsert {
            id: dto.id,
            name: dto.name,
            original_name: None,
            profile_path: dto.profile_path,
            place_of_birth: dto.place_of_birth,
            biography: dto.biography,
            birthday: dto.birthday,
            deathday: dto.deathday,
            gender: dto.gender,
            imdb_id: dto.imdb_id,
            adult: Some(dto.adult),
            popularity: dto.popularity,
            known_for_department: dto.known_for_department,
        }),
{
    PersonUpsert {
        id: dto.id,
        name: clone_opt(&dto.name),
        original_name: None,
        profile_path: clone_opt(&dto.profile_path),
        place_of_birth: clone_opt(&dto.place_of_birth),
        biography: clone_opt(&dto.biography),
        birthday: clone_opt(&dto.birthday),
        deathday: clone_opt(&dto.deathday),
        gender: dto.gender,
        imdb_id: clone_opt(&dto.imdb_id),
        adult: Some(dto.adult),
        popularity: dto.popularity,
        known_for_department: clone_opt(&dto.known_for_department),
    }
}

/// The kind a recommended title is labelled with: `tv` and `movie` as TMDB
/// says, anything else (TMDB omits it on per-title lists) as `default_kind`.
pub open spec fn rec_kind(media_type: Option<String>, default_kind: VideoType) -> VideoType {
    match media_type {
        Some(m) => if m@ == "tv"@ {
            VideoType::Tvshow
        } else if m@ == "movie"@ {
            VideoType::Movie
        } else {
            default_kind
        },
        None => default_kind,
    }
}

/// A recommended title as stored.
pub open spec fn is_stored_recommendation(s: StoredRecommendation, b: TmdbMovieBrief, default_kind: VideoType) -> bool {
    &&& s.id == b.id
    &&& s.display_name@ == brief_name(b)
    &&& s.poster_path == b.poster_path
    &&& s.backdrop_path == b.backdrop_path
    &&& s.vote_average == b.vote_average
    &&& s.adult == Some(b.adult)
    &&& s.rec_type matches Some(t) && t@ == video_type_name(rec_kind(b.media_type, default_kind))
    &&& s.release_date == b.release_date
    &&& s.first_air_date == b.first_air_date
    &&& s.age_rating is None
}

fn kind_of(media_type: &Option<String>, default_kind: VideoType) -> (r: VideoType)
    ensures
        r == rec_kind(*media_type, default_kind),
{
    match media_type {
        Some(m) => if str_eq(m.as_str(), "tv") {
            VideoType::Tvshow
        } else if str_eq(m.as_str(), "movie") {
            VideoType::Movie
        } else {
            default_kind
        },
        None => default_kind,
    }
}

/// A paged recommendation response as a storable set: the paging fields and
/// every result, in order.
pub fn recommendation_set(paged: &TmdbPaged<TmdbMovieBrief>, default_kind: VideoType) -> (r:
    RecommendationSet)
    ensures
        r.page == paged.page,
        r.total_pages == paged.total_pages,
        r.total_results == paged.total_results,
        r.items@.len() == paged.results@.len(),
        forall|i: int|
            0 <= i < r.items@.len() ==> is_stored_recommendation(
                #[trigger] r.items@[i],
                paged.results@[i],
                default_kind,
            ),
{
    let mut items: Vec<StoredRecommendation> = Vec::new();
    let mut i: usize = 0;
    while i < paged.results.len()
        invariant
            i <= paged.results@.len(),
            items@.len() == i,
            forall|k: int|
                0 <= k < i ==> is_stored_recommendation(#[trigger] items@[k], paged.results@[k], default_kind),
        decreases paged.results@.len() - i,
    {
        let b = &paged.results[i];
        let kind = kind_of(&b.media_type, default_kind);
        items.push(
            StoredRecommendation {
                id: b.id,
                display_name: b.display_name(),
                poster_path: clone_opt(&b.poster_path),
                backdrop_path: clone_opt(&b.backdrop_path),
                vote_average: b.vote_average,
                adult: Some(b.adult),
                rec_type: Some(String::from_str(kind.as_str())),
                release_date: clone_opt(&b.release_date),
                first_air_date: clone_opt(&b.first_air_date),
                age_rating: None,
            },
        );
        i = i + 1;
    }
    RecommendationSet {
        page: paged.page,
        total_pages: paged.total_pages,
        total_results: paged.total_results,
        items,
    }
}

} // verus!
