//! The TMDB v3 requests the cache makes: which path each asks for, which
//! sub-resources it appends, how the API key is presented, and how a failed
//! answer becomes an error. Sending the requests is left to the caller.

use vstd::prelude::*;
use vstd::string::*;

use crate::error::AppError;
use crate::text::{concat, decimal, decimal_text, strip_leading, strip_leading_spec, to_owned};

verus! {

/// How the API key is presented to TMDB.
#[derive(Debug)]
pub enum TmdbAuth {
    /// A v3 API key, sent as the `api_key` query parameter.
    QueryKey(String),
    /// A v4 read access token (a JWT), sent as a bearer token.
    Bearer(String),
}

/// How many times `c` occurs in `s`.
pub open spec fn count_char(s: Seq<char>, c: char) -> nat
    decreases s.len(),
{
    if s.len() == 0 {
        0
    } else {
        count_char(s.drop_last(), c) + if s.last() == c {
            1nat
        } else {
            0nat
        }
    }
}

/// A v4 token is a JWT: it starts with `ey` and has exactly two dots. Anything
/// else is taken for a v3 key.
pub open spec fn is_jwt(key: Seq<char>) -> bool {
    key.len() >= 2 && key[0] == 'e' && key[1] == 'y' && count_char(key, '.') == 2
}

/// The way a key is presented: as a bearer token when it looks like a JWT,
/// else as a query parameter.
pub fn auth_for_key(api_key: &str) -> (r: TmdbAuth)
    ensures
        is_jwt(api_key@) ==> (r matches TmdbAuth::Bearer(t) && t@ == api_key@),
        !is_jwt(api_key@) ==> (r matches TmdbAuth::QueryKey(k) && k@ == api_key@),
{
    let n = api_key.unicode_len();
    let mut dots: usize = 0;
    let mut i: usize = 0;
    while i < n
        invariant
            n == api_key@.len(),
            i <= n,
            dots == count_char(api_key@.take(i as int), '.'),
            dots <= i,
        decreases n - i,
    {
        proof {
            assert(api_key@.take(i + 1).drop_last() =~= api_key@.take(i as int));
        }
        if api_key.get_char(i) == '.' {
            dots = dots + 1;
        }
        i = i + 1;
    }
    proof {
        assert(api_key@.take(n as int) =~= api_key@);
    }
    if n >= 2 && api_key.get_char(0) == 'e' && api_key.get_char(1) == 'y' && dots == 2 {
        TmdbAuth::Bearer(to_owned(api_key))
    } else {
        TmdbAuth::QueryKey(to_owned(api_key))
    }
}

/// One request against the TMDB v3 API.
#[derive(Debug)]
pub enum TmdbRequest {
    Configuration,
    /// A movie with its videos, external ids, credits and recommendations.
    Movie(i64),
    MovieCredits(i64),
    /// A page of a movie's recommendations.
    MovieRecommendations(i64, i64),
    MovieImages(i64),
    MovieVideos(i64),
    MovieReleaseDates(i64),
    MovieWatchProviders(i64),
    /// A show with its videos, external ids, credits and recommendations.
    TvShow(i64),
    /// A season of a show, by show id and season number.
    TvSeason(i64, i64),
    TvImages(i64),
    TvSeasonImages(i64, i64),
    TvContentRatings(i64),
    TvWatchProviders(i64),
    TvRecommendations(i64, i64),
    /// A person with their movie and TV credits.
    Person(i64),
    PersonImages(i64),
    Collection(i64),
    /// A page of a movie search.
    SearchMovies(String, i64),
    /// A page of a TV search.
    SearchTv(String, i64),
}

/// `prefix` followed by `id` in decimal and then `suffix`.
pub open spec fn id_path(prefix: Seq<char>, id: i64, suffix: Seq<char>) -> Seq<char> {
    prefix + decimal_text(id as int) + suffix
}

/// The path of a request below the API base.
pub open spec fn request_path(r: TmdbRequest) -> Seq<char> {
    match r {
        TmdbRequest::Configuration => "configuration"@,
        TmdbRequest::Movie(id) => id_path("movie/"@, id, ""@),
        TmdbRequest::MovieCredits(id) => id_path("movie/"@, id, "/credits"@),
        TmdbRequest::MovieRecommendations(id, _) => id_path("movie/"@, id, "/recommendations"@),
        TmdbRequest::MovieImages(id) => id_path("movie/"@, id, "/images"@),
        TmdbRequest::MovieVideos(id) => id_path("movie/"@, id, "/videos"@),
        TmdbRequest::MovieReleaseDates(id) => id_path("movie/"@, id, "/release_dates"@),
        TmdbRequest::MovieWatchProviders(id) => id_path("movie/"@, id, "/watch/providers"@),
        TmdbRequest::TvShow(id) => id_path("tv/"@, id, ""@),
        TmdbRequest::TvSeason(id, s) => id_path("tv/"@, id, "/season/"@) + decimal_text(s as int),
        TmdbRequest::TvImages(id) => id_path("tv/"@, id, "/images"@),
        TmdbRequest::TvSeasonImages(id, s) => id_path("tv/"@, id, "/season/"@) + decimal_text(
            s as int,
        ) + "/images"@,
        TmdbRequest::TvContentRatings(id) => id_path("tv/"@, id, "/content_ratings"@),
        TmdbRequest::TvWatchProviders(id) => id_path("tv/"@, id, "/watch/providers"@),
        TmdbRequest::TvRecommendations(id, _) => id_path("tv/"@, id, "/recommendations"@),
        TmdbRequest::Person(id) => id_path("person/"@, id, ""@),
        TmdbRequest::PersonImages(id) => id_path("person/"@, id, "/images"@),
        TmdbRequest::Collection(id) => id_path("collection/"@, id, ""@),
        TmdbRequest::SearchMovies(_, _) => "search/movie"@,
        TmdbRequest::SearchTv(_, _) => "search/tv"@,
    }
}

/// A query pair, by name and value.
pub open spec fn pair(name: Seq<char>, value: Seq<char>) -> (Seq<char>, Seq<char>) {
    (name, value)
}

/// The query pairs a request adds to the language and the key: appended
/// sub-resources, the image languages, the page and the search text.
pub open spec fn request_extra(r: TmdbRequest) -> Seq<(Seq<char>, Seq<char>)> {
    match r {
        TmdbRequest::Movie(_) | TmdbRequest::TvShow(_) => seq![
            pair("append_to_response"@, "videos,external_ids,credits,recommendations"@),
        ],
        TmdbRequest::MovieRecommendations(_, p) | TmdbRequest::TvRecommendations(_, p) => seq![
            pair("page"@, decimal_text(p as int)),
        ],
        TmdbRequest::MovieImages(_) | TmdbRequest::TvImages(_) | TmdbRequest::TvSeasonImages(
            _,
            _,
        ) => seq![pair("include_image_language"@, "en,null"@)],
        TmdbRequest::Person(_) => seq![pair("append_to_response"@, "movie_credits,tv_credits"@)],
        TmdbRequest::SearchMovies(q, p) | TmdbRequest::SearchTv(q, p) => seq![
            pair("query"@, q@),
            pair("page"@, decimal_text(p as int)),
        ],
        _ => Seq::empty(),
    }
}

/// Text views of query pairs.
pub open spec fn pairs_view(v: Seq<(String, String)>) -> Seq<(Seq<char>, Seq<char>)> {
    v.map_values(|p: (String, String)| (p.0@, p.1@))
}

fn path_with_id(prefix: &str, id: i64, suffix: &str) -> (r: String)
    ensures
        r@ == id_path(prefix@, id, suffix@),
{
    let mut s = String::from_str(prefix);
    let d = decimal(id);
    s.append(d.as_str());
    s.append(suffix);
    s
}

fn owned_pair(name: &str, value: &str) -> (r: (String, String))
    ensures
        r.0@ == name@,
        r.1@ == value@,
{
    (String::from_str(name), String::from_str(value))
}

impl TmdbRequest {
    pub fn path(&self) -> (r: String)
        ensures
            r@ == request_path(*self),
    {
        match self {
            TmdbRequest::Configuration => String::from_str("configuration"),
            TmdbRequest::Movie(id) => path_with_id("movie/", *id, ""),
            TmdbRequest::MovieCredits(id) => path_with_id("movie/", *id, "/credits"),
            TmdbRequest::MovieRecommendations(id, _) => path_with_id("movie/", *id, "/recommendations"),
            TmdbRequest::MovieImages(id) => path_with_id("movie/", *id, "/images"),
            TmdbRequest::MovieVideos(id) => path_with_id("movie/", *id, "/videos"),
            TmdbRequest::MovieReleaseDates(id) => path_with_id("movie/", *id, "/release_dates"),
            TmdbRequest::MovieWatchProviders(id) => path_with_id("movie/", *id, "/watch/providers"),
            TmdbRequest::TvShow(id) => path_with_id("tv/", *id, ""),
            TmdbRequest::TvSeason(id, s) => {
                let mut p = path_with_id("tv/", *id, "/season/");
                let d = decimal(*s);
                p.append(d.as_str());
                p
            },
            TmdbRequest::TvImages(id) => path_with_id("tv/", *id, "/images"),
            TmdbRequest::TvSeasonImages(id, s) => {
                let mut p = path_with_id("tv/", *id, "/season/");
                let d = decimal(*s);
                p.append(d.as_str());
                p.append("/images");
                p
            },
            TmdbRequest::TvContentRatings(id) => path_with_id("tv/", *id, "/content_ratings"),
            TmdbRequest::TvWatchProviders(id) => path_with_id("tv/", *id, "/watch/providers"),
            TmdbRequest::TvRecommendations(id, _) => path_with_id("tv/", *id, "/recommendations"),
            TmdbRequest::Person(id) => path_with_id("person/", *id, ""),
            TmdbRequest::PersonImages(id) => path_with_id("person/", *id, "/images"),
            TmdbRequest::Collection(id) => path_with_id("collection/", *id, ""),
            TmdbRequest::SearchMovies(_, _) => String::from_str("search/movie"),
            TmdbRequest::SearchTv(_, _) => String::from_str("search/tv"),
        }
    }

    pub fn extra_query(&self) -> (r: Vec<(String, String)>)
        ensures
            pairs_view(r@) == request_extra(*self),
    {
        let mut out: Vec<(String, String)> = Vec::new();
        match self {
            TmdbRequest::Movie(_) | TmdbRequest::TvShow(_) => {
                out.push(owned_pair("append_to_response", "videos,external_ids,credits,recommendations"));
            },
            TmdbRequest::MovieRecommendations(_, p) | TmdbRequest::TvRecommendations(_, p) => {
                let d = decimal(*p);
                out.push((String::from_str("page"), d));
            },
            TmdbRequest::MovieImages(_) | TmdbRequest::TvImages(_) | TmdbRequest::TvSeasonImages(
                _,
                _,
            ) => {
                out.push(owned_pair("include_image_language", "en,null"));
            },
            TmdbRequest::Person(_) => {
                out.push(owned_pair("append_to_response", "movie_credits,tv_credits"));
            },
            TmdbRequest::SearchMovies(q, p) | TmdbRequest::SearchTv(q, p) => {
                out.push((String::from_str("query"), q.clone()));
                let d = decimal(*p);
                out.push((String::from_str("page"), d));
            },
            _ => {},
        }
        proof {
            assert(pairs_view(out@) =~= request_extra(*self));
        }
        out
    }
}

/// The base every API path is relative to.
pub open spec fn api_base() -> Seq<char> {
    "https://api.themoviedb.org/3"@
}

/// The URL of a request: the API base, a slash and the request's path.
pub fn request_url(r: &TmdbRequest) -> (u: String)
    ensures
        u@ == api_base() + "/"@ + request_path(*r),
{
    let mut u = concat("https://api.themoviedb.org/3", "/");
    let p = r.path();
    u.append(p.as_str());
    u
}

/// Every query pair a request is sent with: the language, then the key when
/// it is presented as a query parameter, then the request's own pairs.
pub fn query_pairs(r: &TmdbRequest, language: &str, auth: &TmdbAuth) -> (q: Vec<(String, String)>)
    ensures
        pairs_view(q@) == seq![pair("language"@, language@)] + (match auth {
            TmdbAuth::QueryKey(k) => seq![pair("api_key"@, k@)],
            TmdbAuth::Bearer(_) => Seq::empty(),
        }) + request_extra(*r),
{
    let mut q: Vec<(String, String)> = Vec::new();
    q.push(owned_pair("language", language));
    match auth {
        TmdbAuth::QueryKey(k) => q.push((String::from_str("api_key"), k.clone())),
        TmdbAuth::Bearer(_) => {},
    }
    let mut extra = r.extra_query();
    let ghost before = q@;
    q.append(&mut extra);
    proof {
        assert(pairs_view(q@) =~= seq![pair("language"@, language@)] + (match auth {
            TmdbAuth::QueryKey(k) => seq![pair("api_key"@, k@)],
            TmdbAuth::Bearer(_) => Seq::empty(),
        }) + request_extra(*r));
    }
    q
}

/// The bearer token a request carries, when the key is a v4 token.
pub fn bearer_token(auth: &TmdbAuth) -> (r: Option<String>)
    ensures
        match auth {
            TmdbAuth::Bearer(t) => r == Some(*t),
            TmdbAuth::QueryKey(_) => r is None,
        },
{
    match auth {
        TmdbAuth::Bearer(t) => Some(t.clone()),
        TmdbAuth::QueryKey(_) => None,
    }
}

/// A 2xx status.
pub fn is_success(status: u16) -> (r: bool)
    ensures
        r == (200 <= status <= 299),
{
    200 <= status && status <= 299
}

/// The status an upstream failure is reported with: the upstream status when
/// it is a valid HTTP status code, else 502.
pub open spec fn reported_status(status: u16) -> u16 {
    if 100 <= status <= 999 {
        status
    } else {
        502
    }
}

/// The error for a TMDB answer with a non-success status: the status and the
/// first 500 characters of the body.
pub fn status_error(status: u16, body: &str) -> (r: AppError)
    ensures
        r matches AppError::TmdbStatus { status: s, body: b } && s == reported_status(status) && b@
            == body@.take(if body@.len() < 500 {
            body@.len() as int
        } else {
            500
        }),
{
    let n = body.unicode_len();
    let k = if n < 500 {
        n
    } else {
        500
    };
    let b = body.substring_char(0, k);
    let s = if 100 <= status && status <= 999 {
        status
    } else {
        502
    };
    proof {
        assert(body@.subrange(0, k as int) =~= body@.take(k as int));
    }
    AppError::TmdbStatus { status: s, body: to_owned(b) }
}

/// The URL an image is downloaded from: the image base, the size token and
/// the image path without its leading slashes.
pub fn image_url(size: &str, path: &str) -> (u: String)
    ensures
        u@ == "https://image.tmdb.org/t/p"@ + "/"@ + size@ + "/"@ + strip_leading_spec(path@, '/'),
{
    let mut u = concat("https://image.tmdb.org/t/p", "/");
    u.append(size);
    u.append("/");
    let p = strip_leading(path, '/');
    u.append(p);
    u
}

/// The error for an image download with a non-success status.
pub fn image_fetch_error(status: u16, url: &str) -> (r: AppError)
    ensures
        r matches AppError::TmdbStatus { status: s, body: b } && s == reported_status(status) && b@
            == "image fetch failed for "@ + url@,
{
    let s = if 100 <= status && status <= 999 {
        status
    } else {
        502
    };
    AppError::TmdbStatus { status: s, body: concat("image fetch failed for ", url) }
}

} // verus!
