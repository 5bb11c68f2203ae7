//! Wire-level data types of the public API and the small rules attached to them.
//!
//! Scores that TMDB reports as floating-point numbers are carried here as the
//! IEEE-754 bit pattern of an `f32` (`Option<u32>`): the library moves them
//! between records and responses but never computes with them.

use vstd::prelude::*;
use vstd::string::*;

use crate::text::{clone_opt, str_eq};

verus! {

/// The kind of title a record describes.
#[derive(Debug, Clone, Copy, PartialEq, Eq, Structural)]
pub enum VideoType {
    Movie,
    Tvshow,
    Tvseason,
    Video,
}

/// The lower-case name a video type is stored and serialised under.
pub open spec fn video_type_name(t: VideoType) -> Seq<char> {
    match t {
        VideoType::Movie => "movie"@,
        VideoType::Tvshow => "tvshow"@,
        VideoType::Tvseason => "tvseason"@,
        VideoType::Video => "video"@,
    }
}

impl VideoType {
    pub fn as_str(&self) -> (r: &'static str)
        ensures
            r@ == video_type_name(*self),
    {
        match self {
            VideoType::Movie => "movie",
            VideoType::Tvshow => "tvshow",
            VideoType::Tvseason => "tvseason",
            VideoType::Video => "video",
        }
    }
}

impl Default for VideoType {
    fn default() -> (r: Self)
        ensures
            r == VideoType::Movie,
    {
        VideoType::Movie
    }
}

/// How a title can be watched on a given provider.
#[derive(Debug, Clone, Copy, PartialEq, Eq, Structural)]
pub enum ProviderKind {
    Buy,
    Rent,
    Flatrate,
}

/// The tag stored in `video_watch_provider.kind` for each provider kind.
pub open spec fn provider_kind_name(k: ProviderKind) -> Seq<char> {
    match k {
        ProviderKind::Buy => "buy"@,
        ProviderKind::Rent => "rent"@,
        ProviderKind::Flatrate => "flatrate"@,
    }
}

/// The provider kind a stored tag names, if it names one.
pub open spec fn provider_kind_of(s: Seq<char>) -> Option<ProviderKind> {
    if s == "buy"@ {
        Some(ProviderKind::Buy)
    } else if s == "rent"@ {
        Some(ProviderKind::Rent)
    } else if s == "flatrate"@ {
        Some(ProviderKind::Flatrate)
    } else {
        None
    }
}

/// A kind's stored tag names that kind.
pub proof fn lemma_provider_kind_round_trip(k: ProviderKind)
    ensures
        provider_kind_of(provider_kind_name(k)) == Some(k),
{
    reveal_strlit("buy");
    reveal_strlit("rent");
    reveal_strlit("flatrate");
    assert("buy"@ != "rent"@) by {
        assert("buy"@[0] != "rent"@[0]);
    }
    assert("buy"@ != "flatrate"@) by {
        assert("buy"@[0] != "flatrate"@[0]);
    }
    assert("rent"@ != "flatrate"@) by {
        assert("rent"@[0] != "flatrate"@[0]);
    }
}

impl ProviderKind {
    pub fn as_str(&self) -> (r: &'static str)
        ensures
            r@ == provider_kind_name(*self),
    {
        match self {
            ProviderKind::Buy => "buy",
            ProviderKind::Rent => "rent",
            ProviderKind::Flatrate => "flatrate",
        }
    }

    /// Parses the value stored in `video_watch_provider.kind`; an unknown value
    /// is a row this build does not understand, so it yields `None`.
    pub fn from_tag(s: &str) -> (r: Option<ProviderKind>)
        ensures
            r == provider_kind_of(s@),
    {
        if str_eq(s, "buy") {
            Some(ProviderKind::Buy)
        } else if str_eq(s, "rent") {
            Some(ProviderKind::Rent)
        } else if str_eq(s, "flatrate") {
            Some(ProviderKind::Flatrate)
        } else {
            None
        }
    }
}

/// Per-title booleans that live in their own columns rather than in the tag
/// table.
#[derive(Debug, Clone, Copy, PartialEq, Eq, Structural)]
pub enum Flag {
    Favorite,
    Watched,
    Watchlist,
}

/// The column each flag is stored in.
pub open spec fn flag_column(f: Flag) -> Seq<char> {
    match f {
        Flag::Favorite => "favorite"@,
        Flag::Watched => "watched"@,
        Flag::Watchlist => "on_watchlist"@,
    }
}

impl Flag {
    pub fn column(&self) -> (r: &'static str)
        ensures
            r@ == flag_column(*self),
    {
        match self {
            Flag::Favorite => "favorite",
            Flag::Watched => "watched",
            Flag::Watchlist => "on_watchlist",
        }
    }
}

/// Tag names that toggle a flag column instead of a freeform tag.
pub const TAG_FAVORITE: &'static str = "favorite";

pub const TAG_WATCHED: &'static str = "watched";

pub const TAG_WATCHLIST: &'static str = "onWatchlist";

/// The flag a tag name controls: `favorite`, `watched`, and `onWatchlist` (or
/// its short form `watchlist`).
pub open spec fn reserved_flag_of(tag: Seq<char>) -> Option<Flag> {
    if tag == "favorite"@ {
        Some(Flag::Favorite)
    } else if tag == "watched"@ {
        Some(Flag::Watched)
    } else if tag == "onWatchlist"@ || tag == "watchlist"@ {
        Some(Flag::Watchlist)
    } else {
        None
    }
}

/// Resolves a tag name to the flag column it controls, if any.
pub fn reserved_flag(tag: &str) -> (r: Option<Flag>)
    ensures
        r == reserved_flag_of(tag@),
{
    if str_eq(tag, "favorite") {
        Some(Flag::Favorite)
    } else if str_eq(tag, "watched") {
        Some(Flag::Watched)
    } else if str_eq(tag, "onWatchlist") || str_eq(tag, "watchlist") {
        Some(Flag::Watchlist)
    } else {
        None
    }
}

#[derive(Debug)]
pub struct Genre {
    pub id: i64,
    pub genre_id: Option<i64>,
    pub name: String,
}

impl Clone for Genre {
    fn clone(&self) -> (r: Self)
        ensures
            r == *self,
    {
        Genre { id: self.id, genre_id: self.genre_id, name: self.name.clone() }
    }
}

#[derive(Debug)]
pub struct Network {
    pub id: i64,
    pub network_id: Option<i64>,
    pub name: String,
    pub logo_path: Option<String>,
    pub origin_country: Option<String>,
    pub headquarters: Option<String>,
    pub homepage: Option<String>,
}

impl Clone for Network {
    fn clone(&self) -> (r: Self)
        ensures
            r == *self,
    {
        Network {
            id: self.id,
            network_id: self.network_id,
            name: self.name.clone(),
            logo_path: clone_opt(&self.logo_path),
            origin_country: clone_opt(&self.origin_country),
            headquarters: clone_opt(&self.headquarters),
            homepage: clone_opt(&self.homepage),
        }
    }
}

#[derive(Debug)]
pub struct WatchProvider {
    pub logo_path: Option<String>,
    pub provider_id: i64,
    pub provider_name: String,
    pub display_priority: Option<i64>,
}

impl Clone for WatchProvider {
    fn clone(&self) -> (r: Self)
        ensures
            r == *self,
    {
        WatchProvider {
            logo_path: clone_opt(&self.logo_path),
            provider_id: self.provider_id,
            provider_name: self.provider_name.clone(),
            display_priority: self.display_priority,
        }
    }
}

/// Everything a movie, TV show, season, search hit or collection part has in
/// common. `vote_average` is on the 0..=100 scale; `popularity` is the bit
/// pattern of an `f32` score.
#[derive(Debug, Clone)]
pub struct VideoBase {
    pub id: i64,
    pub video_type: VideoType,
    pub display_name: String,
    pub poster_path: Option<String>,
    pub backdrop_path: Option<String>,
    pub favorite: bool,
    pub on_watchlist: bool,
    pub watched: bool,
    pub release_date: Option<String>,
    pub season_number: Option<i64>,
    pub tv_show_id: Option<i64>,
    pub overview: Option<String>,
    pub genres: Vec<Genre>,
    pub networks: Vec<Network>,
    pub vote_average: Option<i64>,
    pub vote_count: Option<i64>,
    pub popularity: Option<u32>,
    pub tags: Vec<String>,
    pub age_rating: Option<String>,
    pub runtime: Option<i32>,
    pub adult: bool,
    pub wer_streamt_es_id: Option<i32>,
    pub imdb_id: Option<String>,
    pub tvdb_id: Option<String>,
    pub emby_id: Option<i64>,
    pub emby_server_id: Option<String>,
    pub emby_video_codecs: Vec<String>,
    pub buy_watch_providers: Vec<WatchProvider>,
    pub rent_watch_providers: Vec<WatchProvider>,
    pub flatrate_watch_providers: Vec<WatchProvider>,
    pub wikidata_id: Option<String>,
    pub facebook_id: Option<String>,
    pub instagram_id: Option<String>,
    pub twitter_id: Option<String>,
}

/// A base with no data: id 0, a movie, an empty name, no optional field set,
/// every flag off and every list empty.
pub open spec fn is_blank_base(b: VideoBase) -> bool {
    &&& b.id == 0
    &&& b.video_type == VideoType::Movie
    &&& b.display_name@.len() == 0
    &&& b.poster_path is None
    &&& b.backdrop_path is None
    &&& !b.favorite && !b.on_watchlist && !b.watched
    &&& b.release_date is None
    &&& b.season_number is None
    &&& b.tv_show_id is None
    &&& b.overview is None
    &&& b.genres@.len() == 0
    &&& b.networks@.len() == 0
    &&& b.vote_average is None
    &&& b.vote_count is None
    &&& b.popularity is None
    &&& b.tags@.len() == 0
    &&& b.age_rating is None
    &&& b.runtime is None
    &&& !b.adult
    &&& b.wer_streamt_es_id is None
    &&& b.imdb_id is None
    &&& b.tvdb_id is None
    &&& b.emby_id is None
    &&& b.emby_server_id is None
    &&& b.emby_video_codecs@.len() == 0
    &&& b.buy_watch_providers@.len() == 0
    &&& b.rent_watch_providers@.len() == 0
    &&& b.flatrate_watch_providers@.len() == 0
    &&& b.wikidata_id is None
    &&& b.facebook_id is None
    &&& b.instagram_id is None
    &&& b.twitter_id is None
}

impl Default for VideoBase {
    fn default() -> (r: Self)
        ensures
            is_blank_base(r),
    {
        VideoBase {
            id: 0,
            video_type: VideoType::Movie,
            display_name: String::new(),
            poster_path: None,
            backdrop_path: None,
            favorite: false,
            on_watchlist: false,
            watched: false,
            release_date: None,
            season_number: None,
            tv_show_id: None,
            overview: None,
            genres: Vec::new(),
            networks: Vec::new(),
            vote_average: None,
            vote_count: None,
            popularity: None,
            tags: Vec::new(),
            age_rating: None,
            runtime: None,
            adult: false,
            wer_streamt_es_id: None,
            imdb_id: None,
            tvdb_id: None,
            emby_id: None,
            emby_server_id: None,
            emby_video_codecs: Vec::new(),
            buy_watch_providers: Vec::new(),
            rent_watch_providers: Vec::new(),
            flatrate_watch_providers: Vec::new(),
            wikidata_id: None,
            facebook_id: None,
            instagram_id: None,
            twitter_id: None,
        }
    }
}

/// Back-reference from a person to a title in the local library: `cast_id`
/// carries the video's id, `character` the role (or, for crew, the job).
#[derive(Debug, Clone)]
pub struct CastReference {
    pub cast_id: i64,
    pub character: String,
}

/// Patch body for movies, shows and seasons. `tag` with `checked` toggles one
/// tag; the other fields are user overrides.
#[derive(Debug, Clone)]
pub struct VideoPatch {
    pub tag: Option<String>,
    pub checked: Option<bool>,
    pub poster_path: Option<String>,
    pub backdrop_path: Option<String>,
    pub overview: Option<String>,
    pub imdb_id: Option<String>,
    pub wer_streamt_es_id: Option<i32>,
}

impl Default for VideoPatch {
    fn default() -> (r: Self)
        ensures
            r.tag is None,
            r.checked is None,
            r.poster_path is None,
            r.backdrop_path is None,
            r.overview is None,
            r.imdb_id is None,
            r.wer_streamt_es_id is None,
    {
        VideoPatch {
            tag: None,
            checked: None,
            poster_path: None,
            backdrop_path: None,
            overview: None,
            imdb_id: None,
            wer_streamt_es_id: None,
        }
    }
}

impl VideoPatch {
    /// True when the patch carries a tag toggle that needs `checked` to resolve.
    pub fn is_tag_toggle(&self) -> (r: bool)
        ensures
            r == self.tag is Some,
    {
        self.tag.is_some()
    }
}

#[derive(Debug, Clone)]
pub struct PersonPatch {
    pub profile_path: Option<String>,
}

impl Default for PersonPatch {
    fn default() -> (r: Self)
        ensures
            r.profile_path is None,
    {
        PersonPatch {
            profile_path: None,
        }
    }
}

#[derive(Debug, Clone)]
pub struct TvEpisodePatch {
    pub tag: Option<String>,
    pub checked: Option<bool>,
}

impl Default for TvEpisodePatch {
    fn default() -> (r: Self)
        ensures
            r.tag is None,
            r.checked is None,
    {
        TvEpisodePatch {
            tag: None,
            checked: None,
        }
    }
}

/// A lightweight poster card for a recommended title.
#[derive(Debug, Clone)]
pub struct RecommendationBase {
    pub id: i64,
    pub poster_path: Option<String>,
    pub backdrop_path: Option<String>,
    pub favorite: bool,
    pub on_watchlist: bool,
    pub watched: bool,
    pub display_name: String,
    pub vote_average: Option<i64>,
    pub adult: Option<bool>,
    pub rec_type: Option<String>,
    pub emby_id: Option<i64>,
    pub emby_server_id: Option<String>,
    pub tags: Vec<String>,
}

impl Default for RecommendationBase {
    fn default() -> (r: Self)
        ensures
            r.id == 0,
            r.poster_path is None,
            r.backdrop_path is None,
            !r.favorite,
            !r.on_watchlist,
            !r.watched,
            r.display_name@.len() == 0,
            r.vote_average is None,
            r.adult is None,
            r.rec_type is None,
            r.emby_id is None,
            r.emby_server_id is None,
            r.tags@.len() == 0,
    {
        RecommendationBase {
            id: 0,
            poster_path: None,
            backdrop_path: None,
            favorite: false,
            on_watchlist: false,
            watched: false,
            display_name: String::new(),
            vote_average: None,
            adult: None,
            rec_type: None,
            emby_id: None,
            emby_server_id: None,
            tags: Vec::new(),
        }
    }
}

#[derive(Debug, Clone)]
pub struct Recommendation {
    pub base: RecommendationBase,
    pub release_date: Option<String>,
    pub age_rating: Option<String>,
}

impl Default for Recommendation {
    fn default() -> (r: Self)
        ensures
            r.base.id == 0,
            r.base.poster_path is None,
            r.base.backdrop_path is None,
            !r.base.favorite,
            !r.base.on_watchlist,
            !r.base.watched,
            r.base.display_name@.len() == 0,
            r.base.vote_average is None,
            r.base.adult is None,
            r.base.rec_type is None,
            r.base.emby_id is None,
            r.base.emby_server_id is None,
            r.base.tags@.len() == 0,
            r.release_date is None,
            r.age_rating is None,
    {
        Recommendation {
            base: RecommendationBase {
                id: 0,
                poster_path: None,
                backdrop_path: None,
                favorite: false,
                on_watchlist: false,
                watched: false,
                display_name: String::new(),
                vote_average: None,
                adult: None,
                rec_type: None,
                emby_id: None,
                emby_server_id: None,
                tags: Vec::new(),
            },
            release_date: None,
            age_rating: None,
        }
    }
}

#[derive(Debug, Clone)]
pub struct Recommendations {
    pub movie_id: i64,
    pub page: Option<i64>,
    pub movie_recommendations: Vec<Recommendation>,
    pub total_pages: Option<i64>,
    pub total_results: Option<i64>,
}

impl Default for Recommendations {
    fn default() -> (r: Self)
        ensures
            r.movie_id == 0,
            r.page is None,
            r.movie_recommendations@.len() == 0,
            r.total_pages is None,
            r.total_results is None,
    {
        Recommendations {
            movie_id: 0,
            page: None,
            movie_recommendations: Vec::new(),
            total_pages: None,
            total_results: None,
        }
    }
}

#[derive(Debug, Clone)]
pub struct TvShowRecommendation {
    pub base: RecommendationBase,
    pub first_air_date: Option<String>,
}

impl Default for TvShowRecommendation {
    fn default() -> (r: Self)
        ensures
            r.base.id == 0,
            r.base.poster_path is None,
            r.base.backdrop_path is None,
            !r.base.favorite,
            !r.base.on_watchlist,
            !r.base.watched,
            r.base.display_name@.len() == 0,
            r.base.vote_average is None,
            r.base.adult is None,
            r.base.rec_type is None,
            r.base.emby_id is None,
            r.base.emby_server_id is None,
            r.base.tags@.len() == 0,
            r.first_air_date is None,
    {
        TvShowRecommendation {
            base: RecommendationBase {
                id: 0,
                poster_path: None,
                backdrop_path: None,
                favorite: false,
                on_watchlist: false,
                watched: false,
                display_name: String::new(),
                vote_average: None,
                adult: None,
                rec_type: None,
                emby_id: None,
                emby_server_id: None,
                tags: Vec::new(),
            },
            first_air_date: None,
        }
    }
}

/// Named `movieId` on the wire even for TV shows.
#[derive(Debug, Clone)]
pub struct TvShowRecommendations {
    pub movie_id: i64,
    pub page: Option<i64>,
    pub tv_show_recommendations: Vec<TvShowRecommendation>,
    pub total_pages: Option<i64>,
    pub total_results: Option<i64>,
}

impl Default for TvShowRecommendations {
    fn default() -> (r: Self)
        ensures
            r.movie_id == 0,
            r.page is None,
            r.tv_show_recommendations@.len() == 0,
            r.total_pages is None,
            r.total_results is None,
    {
        TvShowRecommendations {
            movie_id: 0,
            page: None,
            tv_show_recommendations: Vec::new(),
            total_pages: None,
            total_results: None,
        }
    }
}

#[derive(Debug, Clone)]
pub struct MovieCollection {
    pub id: i64,
    pub poster_path: Option<String>,
    pub backdrop_path: Option<String>,
    pub favorite: bool,
    pub on_watchlist: bool,
    pub watched: bool,
    pub name: String,
}

impl Default for MovieCollection {
    fn default() -> (r: Self)
        ensures
            r.id == 0,
            r.poster_path is None,
            r.backdrop_path is None,
            !r.favorite,
            !r.on_watchlist,
            !r.watched,
            r.name@.len() == 0,
    {
        MovieCollection {
            id: 0,
            poster_path: None,
            backdrop_path: None,
            favorite: false,
            on_watchlist: false,
            watched: false,
            name: String::new(),
        }
    }
}

#[derive(Debug, Clone)]
pub struct Trailer {
    pub trailer_key: String,
}

impl Default for Trailer {
    fn default() -> (r: Self)
        ensures
            r.trailer_key@.len() == 0,
    {
        Trailer {
            trailer_key: String::new(),
        }
    }
}

#[derive(Debug, Clone)]
pub struct Person {
    pub id: i64,
    pub name: Option<String>,
    pub profile_path: Option<String>,
    pub place_of_birth: Option<String>,
    pub biography: Option<String>,
    pub birthday: Option<String>,
    pub deathday: Option<String>,
    pub gender: Option<i64>,
    pub imdb_id: Option<String>,
    pub adult: Option<bool>,
    /// Movies in the local library this person appears in.
    pub movie_cast: Vec<CastReference>,
    /// Movies in the local library this person directed.
    pub directed_movies: Vec<CastReference>,
    /// TV shows in the local library this person appears in.
    pub tv_cast: Vec<CastReference>,
}

impl Default for Person {
    fn default() -> (r: Self)
        ensures
            r.id == 0,
            r.name is None,
            r.profile_path is None,
            r.place_of_birth is None,
            r.biography is None,
            r.birthday is None,
            r.deathday is None,
            r.gender is None,
            r.imdb_id is None,
            r.adult is None,
            r.movie_cast@.len() == 0,
            r.directed_movies@.len() == 0,
            r.tv_cast@.len() == 0,
    {
        Person {
            id: 0,
            name: None,
            profile_path: None,
            place_of_birth: None,
            biography: None,
            birthday: None,
            deathday: None,
            gender: None,
            imdb_id: None,
            adult: None,
            movie_cast: Vec::new(),
            directed_movies: Vec::new(),
            tv_cast: Vec::new(),
        }
    }
}

/// The person fields shared by cast and crew entries. `popularity` is the bit
/// pattern of an `f32` score.
#[derive(Debug)]
pub struct PersonBase {
    pub id: i64,
    pub adult: Option<bool>,
    pub gender: Option<i64>,
    pub known_for_department: Option<String>,
    pub name: String,
    pub original_name: Option<String>,
    pub popularity: Option<u32>,
    pub profile_path: Option<String>,
    pub credit_id: Option<String>,
}

impl Default for PersonBase {
    fn default() -> (r: Self)
        ensures
            r.id == 0,
            r.adult is None,
            r.gender is None,
            r.known_for_department is None,
            r.name@.len() == 0,
            r.original_name is None,
            r.popularity is None,
            r.profile_path is None,
            r.credit_id is None,
    {
        PersonBase {
            id: 0,
            adult: None,
            gender: None,
            known_for_department: None,
            name: String::new(),
            original_name: None,
            popularity: None,
            profile_path: None,
            credit_id: None,
        }
    }
}

impl Clone for PersonBase {
    fn clone(&self) -> (r: Self)
        ensures
            r == *self,
    {
        PersonBase {
            id: self.id,
            adult: self.adult,
            gender: self.gender,
            known_for_department: clone_opt(&self.known_for_department),
            name: self.name.clone(),
            original_name: clone_opt(&self.original_name),
            popularity: self.popularity,
            profile_path: clone_opt(&self.profile_path),
            credit_id: clone_opt(&self.credit_id),
        }
    }
}

#[derive(Debug, Clone)]
pub struct Cast {
    pub person: PersonBase,
    pub cast_id: Option<i64>,
    pub character: Option<String>,
    pub order: Option<i64>,
}

impl Default for Cast {
    fn default() -> (r: Self)
        ensures
            r.person.id == 0,
            r.person.adult is None,
            r.person.gender is None,
            r.person.known_for_department is None,
            r.person.name@.len() == 0,
            r.person.original_name is None,
            r.person.popularity is None,
            r.person.profile_path is None,
            r.person.credit_id is None,
            r.cast_id is None,
            r.character is None,
            r.order is None,
    {
        Cast {
            person: PersonBase {
                id: 0,
                adult: None,
                gender: None,
                known_for_department: None,
                name: String::new(),
                original_name: None,
                popularity: None,
                profile_path: None,
                credit_id: None,
            },
            cast_id: None,
            character: None,
            order: None,
        }
    }
}

#[derive(Debug)]
pub struct Crew {
    pub person: PersonBase,
    pub department: Option<String>,
    pub job: Option<String>,
}

impl Default for Crew {
    fn default() -> (r: Self)
        ensures
            r.person.id == 0,
            r.person.adult is None,
            r.person.gender is None,
            r.person.known_for_department is None,
            r.person.name@.len() == 0,
            r.person.original_name is None,
            r.person.popularity is None,
            r.person.profile_path is None,
            r.person.credit_id is None,
            r.department is None,
            r.job is None,
    {
        Crew {
            person: PersonBase {
                id: 0,
                adult: None,
                gender: None,
                known_for_department: None,
                name: String::new(),
                original_name: None,
                popularity: None,
                profile_path: None,
                credit_id: None,
            },
            department: None,
            job: None,
        }
    }
}

impl Clone for Crew {
    fn clone(&self) -> (r: Self)
        ensures
            r == *self,
    {
        Crew {
            person: self.person.clone(),
            department: clone_opt(&self.department),
            job: clone_opt(&self.job),
        }
    }
}

#[derive(Debug, Clone)]
pub struct Credits {
    pub id: i64,
    pub cast: Vec<Cast>,
    pub crew: Vec<Crew>,
}

impl Default for Credits {
    fn default() -> (r: Self)
        ensures
            r.id == 0,
            r.cast@.len() == 0,
            r.crew@.len() == 0,
    {
        Credits {
            id: 0,
            cast: Vec::new(),
            crew: Vec::new(),
        }
    }
}

/// TV cast entry (named `castId` on the wire, unlike movie cast).
#[derive(Debug, Clone)]
pub struct TvShowCast {
    pub person: PersonBase,
    pub cast_id: Option<i64>,
    pub character: Option<String>,
    pub order: Option<i64>,
}

impl Default for TvShowCast {
    fn default() -> (r: Self)
        ensures
            r.person.id == 0,
            r.person.adult is None,
            r.person.gender is None,
            r.person.known_for_department is None,
            r.person.name@.len() == 0,
            r.person.original_name is None,
            r.person.popularity is None,
            r.person.profile_path is None,
            r.person.credit_id is None,
            r.cast_id is None,
            r.character is None,
            r.order is None,
    {
        TvShowCast {
            person: PersonBase {
                id: 0,
                adult: None,
                gender: None,
                known_for_department: None,
                name: String::new(),
                original_name: None,
                popularity: None,
                profile_path: None,
                credit_id: None,
            },
            cast_id: None,
            character: None,
            order: None,
        }
    }
}

#[derive(Debug, Clone)]
pub struct TvShowCredits {
    pub id: i64,
    pub cast: Vec<TvShowCast>,
}

impl Default for TvShowCredits {
    fn default() -> (r: Self)
        ensures
            r.id == 0,
            r.cast@.len() == 0,
    {
        TvShowCredits {
            id: 0,
            cast: Vec::new(),
        }
    }
}

/// One artwork file. `aspect_ratio` and `vote_average` are bit patterns of
/// `f32` values.
#[derive(Debug)]
pub struct Image {
    pub aspect_ratio: Option<u32>,
    pub height: Option<i32>,
    pub file_path: Option<String>,
    pub vote_average: Option<u32>,
    pub vote_count: Option<i32>,
    pub width: Option<i32>,
}

impl Default for Image {
    fn default() -> (r: Self)
        ensures
            r.aspect_ratio is None,
            r.height is None,
            r.file_path is None,
            r.vote_average is None,
            r.vote_count is None,
            r.width is None,
    {
        Image {
            aspect_ratio: None,
            height: None,
            file_path: None,
            vote_average: None,
            vote_count: None,
            width: None,
        }
    }
}

impl Clone for Image {
    fn clone(&self) -> (r: Self)
        ensures
            r == *self,
    {
        Image {
            aspect_ratio: self.aspect_ratio,
            height: self.height,
            file_path: clone_opt(&self.file_path),
            vote_average: self.vote_average,
            vote_count: self.vote_count,
            width: self.width,
        }
    }
}

#[derive(Debug, Clone)]
pub struct Images {
    pub id: Option<i64>,
    pub tv_show_id: Option<i64>,
    pub season_number: Option<i64>,
    pub backdrops: Vec<Image>,
    pub logos: Vec<Image>,
    pub posters: Vec<Image>,
}

impl Default for Images {
    fn default() -> (r: Self)
        ensures
            r.id is None,
            r.tv_show_id is None,
            r.season_number is None,
            r.backdrops@.len() == 0,
            r.logos@.len() == 0,
            r.posters@.len() == 0,
    {
        Images {
            id: None,
            tv_show_id: None,
            season_number: None,
            backdrops: Vec::new(),
            logos: Vec::new(),
            posters: Vec::new(),
        }
    }
}

#[derive(Debug, Clone)]
pub struct PersonProfiles {
    pub id: i64,
    pub person_id: i64,
    pub profiles: Vec<Image>,
}

impl Default for PersonProfiles {
    fn default() -> (r: Self)
        ensures
            r.id == 0,
            r.person_id == 0,
            r.profiles@.len() == 0,
    {
        PersonProfiles {
            id: 0,
            person_id: 0,
            profiles: Vec::new(),
        }
    }
}

#[derive(Debug, Clone)]
pub struct Movie {
    pub base: VideoBase,
    pub directors: Vec<Crew>,
    pub credits: Option<Credits>,
    pub recommendations: Option<Recommendations>,
    pub original_title: Option<String>,
    pub tagline: Option<String>,
    pub belongs_to_collection: Option<MovieCollection>,
    pub trailer_key: Option<String>,
}

impl Default for Movie {
    fn default() -> (r: Self)
        ensures
            is_blank_base(r.base),
            r.directors@.len() == 0,
            r.credits is None,
            r.recommendations is None,
            r.original_title is None,
            r.tagline is None,
            r.belongs_to_collection is None,
            r.trailer_key is None,
    {
        Movie {
            base: VideoBase::default(),
            directors: Vec::new(),
            credits: None,
            recommendations: None,
            original_title: None,
            tagline: None,
            belongs_to_collection: None,
            trailer_key: None,
        }
    }
}

/// One episode. `vote_average` keeps TMDB's 0..=10 scale as the bit pattern of
/// an `f32`.
#[derive(Debug, Clone)]
pub struct TvEpisode {
    pub id: Option<i64>,
    pub air_date: Option<String>,
    pub episode_number: i64,
    pub crew: Vec<Crew>,
    pub name: Option<String>,
    pub overview: Option<String>,
    pub production_code: Option<String>,
    pub season_number: Option<i64>,
    pub still_path: Option<String>,
    pub vote_average: Option<u32>,
    pub vote_count: Option<i64>,
    pub on_watchlist: bool,
    pub favorite: bool,
    pub watched: bool,
    pub tags: Vec<String>,
}

impl Default for TvEpisode {
    fn default() -> (r: Self)
        ensures
            r.id is None,
            r.air_date is None,
            r.episode_number == 0,
            r.crew@.len() == 0,
            r.name is None,
            r.overview is None,
            r.production_code is None,
            r.season_number is None,
            r.still_path is None,
            r.vote_average is None,
            r.vote_count is None,
            !r.on_watchlist,
            !r.favorite,
            !r.watched,
            r.tags@.len() == 0,
    {
        TvEpisode {
            id: None,
            air_date: None,
            episode_number: 0,
            crew: Vec::new(),
            name: None,
            overview: None,
            production_code: None,
            season_number: None,
            still_path: None,
            vote_average: None,
            vote_count: None,
            on_watchlist: false,
            favorite: false,
            watched: false,
            tags: Vec::new(),
        }
    }
}

#[derive(Debug, Clone)]
pub struct TvSeason {
    pub base: VideoBase,
    pub external_id: Option<String>,
    pub air_date: Option<String>,
    pub episode_count: Option<i64>,
    pub episodes: Vec<TvEpisode>,
}

impl Default for TvSeason {
    fn default() -> (r: Self)
        ensures
            is_blank_base(r.base),
            r.external_id is None,
            r.air_date is None,
            r.episode_count is None,
            r.episodes@.len() == 0,
    {
        TvSeason {
            base: VideoBase::default(),
            external_id: None,
            air_date: None,
            episode_count: None,
            episodes: Vec::new(),
        }
    }
}

#[derive(Debug, Clone)]
pub struct TvShow {
    pub base: VideoBase,
    pub tagline: Option<String>,
    pub seasons: Vec<TvSeason>,
    pub credits: Option<TvShowCredits>,
    pub recommendations: Option<TvShowRecommendations>,
}

impl Default for TvShow {
    fn default() -> (r: Self)
        ensures
            is_blank_base(r.base),
            r.tagline is None,
            r.seasons@.len() == 0,
            r.credits is None,
            r.recommendations is None,
    {
        TvShow {
            base: VideoBase::default(),
            tagline: None,
            seasons: Vec::new(),
            credits: None,
            recommendations: None,
        }
    }
}

#[derive(Debug, Clone)]
pub struct SearchResult {
    pub base: VideoBase,
    pub genre_ids: Vec<i64>,
}

impl Default for SearchResult {
    fn default() -> (r: Self)
        ensures
            is_blank_base(r.base),
            r.genre_ids@.len() == 0,
    {
        SearchResult {
            base: VideoBase::default(),
            genre_ids: Vec::new(),
        }
    }
}

#[derive(Debug, Clone)]
pub struct SearchResponse {
    pub results: Vec<SearchResult>,
}

impl Default for SearchResponse {
    fn default() -> (r: Self)
        ensures
            r.results@.len() == 0,
    {
        SearchResponse {
            results: Vec::new(),
        }
    }
}

#[derive(Debug, Clone)]
pub struct MoviesResult {
    pub movies: Vec<Movie>,
}

impl Default for MoviesResult {
    fn default() -> (r: Self)
        ensures
            r.movies@.len() == 0,
    {
        MoviesResult {
            movies: Vec::new(),
        }
    }
}

#[derive(Debug, Clone)]
pub struct TvShowsResult {
    pub tv_shows: Vec<TvShow>,
}

impl Default for TvShowsResult {
    fn default() -> (r: Self)
        ensures
            r.tv_shows@.len() == 0,
    {
        TvShowsResult {
            tv_shows: Vec::new(),
        }
    }
}

#[derive(Debug, Clone)]
pub struct CollectionPart {
    pub base: VideoBase,
    pub original_language: Option<String>,
    pub original_title: Option<String>,
    pub title: Option<String>,
    pub video: Option<bool>,
}

impl Default for CollectionPart {
    fn default() -> (r: Self)
        ensures
            is_blank_base(r.base),
            r.original_language is None,
            r.original_title is None,
            r.title is None,
            r.video is None,
    {
        CollectionPart {
            base: VideoBase::default(),
            original_language: None,
            original_title: None,
            title: None,
            video: None,
        }
    }
}

#[derive(Debug, Clone)]
pub struct Collection {
    pub id: i64,
    pub poster_path: Option<String>,
    pub backdrop_path: Option<String>,
    pub favorite: bool,
    pub on_watchlist: bool,
    pub watched: bool,
    pub name: String,
    pub overview: Option<String>,
    pub parts: Vec<CollectionPart>,
}

impl Default for Collection {
    fn default() -> (r: Self)
        ensures
            r.id == 0,
            r.poster_path is None,
            r.backdrop_path is None,
            !r.favorite,
            !r.on_watchlist,
            !r.watched,
            r.name@.len() == 0,
            r.overview is None,
            r.parts@.len() == 0,
    {
        Collection {
            id: 0,
            poster_path: None,
            backdrop_path: None,
            favorite: false,
            on_watchlist: false,
            watched: false,
            name: String::new(),
            overview: None,
            parts: Vec::new(),
        }
    }
}

} // verus!
