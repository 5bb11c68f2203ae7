use tmdbcache::caching::plan_movie_cache;
use tmdbcache::config::{healthcheck_port, UnsupportedIntegrations};
use tmdbcache::dto::{
    TmdbCollectionRef, TmdbGenre, TmdbMovie, TmdbProvider, TmdbReleaseDateEntry, TmdbReleaseDateResult,
    TmdbContentRatings, TmdbReleaseDates, TmdbVideos, TmdbWatchProviderRegion, TmdbWatchProviders,
};
use tmdbcache::error::AppError;
use tmdbcache::image::{cached_image, temp_file_name};
use tmdbcache::model::ProviderKind;
use tmdbcache::tmdb::{auth_for_key, bearer_token, image_url, is_success, query_pairs, request_url, status_error, TmdbAuth, TmdbRequest};
use tmdbcache::web::unclaimed;

fn pairs(v: &[(String, String)]) -> Vec<(&str, &str)> {
    v.iter().map(|(a, b)| (a.as_str(), b.as_str())).collect()
}

#[test]
fn a_jwt_is_sent_as_a_bearer_token_and_a_key_as_a_parameter() {
    let jwt = "eyJhbGciOiJIUzI1NiJ9.eyJzdWIiOiJ4In0.c2ln";
    match auth_for_key(jwt) {
        TmdbAuth::Bearer(t) => assert_eq!(t, jwt),
        other => panic!("expected a bearer token, got {other:?}"),
    }
    match auth_for_key("0123456789abcdef") {
        TmdbAuth::QueryKey(k) => assert_eq!(k, "0123456789abcdef"),
        other => panic!("expected a query key, got {other:?}"),
    }
    // Starts like a JWT but has the wrong number of dots.
    assert!(matches!(auth_for_key("eyJ.only-one-dot"), TmdbAuth::QueryKey(_)));
    assert_eq!(bearer_token(&auth_for_key(jwt)).as_deref(), Some(jwt));
    assert_eq!(bearer_token(&auth_for_key("plain")), None);
}

#[test]
fn requests_map_to_tmdb_paths() {
    assert_eq!(request_url(&TmdbRequest::Movie(603)), "https://api.themoviedb.org/3/movie/603");
    assert_eq!(request_url(&TmdbRequest::TvSeason(1399, 2)), "https://api.themoviedb.org/3/tv/1399/season/2");
    assert_eq!(
        request_url(&TmdbRequest::TvSeasonImages(1399, 0)),
        "https://api.themoviedb.org/3/tv/1399/season/0/images"
    );
    assert_eq!(request_url(&TmdbRequest::MovieWatchProviders(7)), "https://api.themoviedb.org/3/movie/7/watch/providers");
    assert_eq!(request_url(&TmdbRequest::SearchTv("x".to_string(), 1)), "https://api.themoviedb.org/3/search/tv");
    assert_eq!(TmdbRequest::Configuration.path(), "configuration");
    assert_eq!(TmdbRequest::Collection(10).path(), "collection/10");
}

#[test]
fn query_pairs_carry_language_key_and_extras() {
    let key = TmdbAuth::QueryKey("k".to_string());
    let q = query_pairs(&TmdbRequest::SearchMovies("the matrix".to_string(), 3), "de-DE", &key);
    assert_eq!(
        pairs(&q),
        vec![("language", "de-DE"), ("api_key", "k"), ("query", "the matrix"), ("page", "3")]
    );
    let bearer = TmdbAuth::Bearer("eyJ.a.b".to_string());
    let q = query_pairs(&TmdbRequest::Movie(1), "en-US", &bearer);
    assert_eq!(
        pairs(&q),
        vec![("language", "en-US"), ("append_to_response", "videos,external_ids,credits,recommendations")]
    );
    let q = query_pairs(&TmdbRequest::MovieImages(1), "en-US", &bearer);
    assert_eq!(pairs(&q), vec![("language", "en-US"), ("include_image_language", "en,null")]);
}

#[test]
fn upstream_failures_keep_status_and_a_bounded_body() {
    assert!(is_success(200) && is_success(299));
    assert!(!is_success(199) && !is_success(300) && !is_success(404));
    let long = "x".repeat(600);
    match status_error(503, &long) {
        AppError::TmdbStatus { status, body } => {
            assert_eq!(status, 503);
            assert_eq!(body.len(), 500);
        }
        other => panic!("unexpected {other:?}"),
    }
    match status_error(42, "short") {
        AppError::TmdbStatus { status, body } => {
            assert_eq!(status, 502);
            assert_eq!(body, "short");
        }
        other => panic!("unexpected {other:?}"),
    }
    assert_eq!(status_error(404, "").status(), 404);
}

#[test]
fn image_urls_drop_the_leading_slash() {
    assert_eq!(image_url("w500", "/abc.jpg"), "https://image.tmdb.org/t/p/w500/abc.jpg");
    assert_eq!(image_url("original", "abc.jpg"), "https://image.tmdb.org/t/p/original/abc.jpg");
}

#[test]
fn unknown_api_paths_fail_as_json_not_html() {
    match unclaimed("/api/v1/nonexistent") {
        Some(e) => {
            assert_eq!(e.status(), 404);
            assert!(matches!(&e, AppError::NotFound(m) if m == "endpoint /api/v1/nonexistent"));
        }
        None => panic!("an unknown API path must not fall through to the UI document"),
    }
    // Deep links into the hash-routed UI still get the document.
    assert!(unclaimed("/some/deep/link").is_none());
    assert!(unclaimed("/").is_none());
    assert!(unclaimed("/api").is_none());
}

#[test]
fn the_health_probe_port_defaults_to_8081() {
    assert_eq!(healthcheck_port(None), 8081);
    assert_eq!(healthcheck_port(Some("9090")), 9090);
    assert_eq!(healthcheck_port(Some("not a port")), 8081);
    assert_eq!(healthcheck_port(Some("70000")), 8081);
    assert_eq!(healthcheck_port(Some("-1")), 8081);
}

#[test]
fn empty_cache_files_are_misses_and_temp_names_are_hidden() {
    assert!(cached_image(None, "a.jpg").is_none());
    assert!(cached_image(Some(Vec::new()), "a.jpg").is_none());
    let hit = cached_image(Some(vec![1, 2, 3]), "a.png").expect("a cached copy");
    assert_eq!(hit.bytes, vec![1, 2, 3]);
    assert_eq!(hit.content_type, "image/png");
    assert_eq!(temp_file_name("abc.jpg", 4242), ".abc.jpg.4242.tmp");
}

fn provider(id: i64, name: &str) -> TmdbProvider {
    TmdbProvider { logo_path: None, provider_id: id, provider_name: name.to_string(), display_priority: Some(1) }
}

fn matrix() -> TmdbMovie {
    TmdbMovie {
        id: 603,
        title: Some("The Matrix".to_string()),
        original_title: None,
        original_language: Some("en".to_string()),
        overview: None,
        poster_path: Some("/p.jpg".to_string()),
        backdrop_path: None,
        release_date: Some("1999-03-31".to_string()),
        runtime: Some(136),
        tagline: None,
        vote_average: Some(82),
        vote_count: Some(100),
        popularity: None,
        adult: false,
        imdb_id: Some("tt0133093".to_string()),
        genres: vec![TmdbGenre { id: 28, name: "Action".to_string() }],
        belongs_to_collection: Some(TmdbCollectionRef {
            id: 2344,
            name: "The Matrix Collection".to_string(),
            poster_path: None,
            backdrop_path: None,
        }),
        credits: None,
        recommendations: None,
        videos: None,
        external_ids: None,
    }
}

#[test]
fn caching_a_movie_uses_the_configured_region() {
    let dates = TmdbReleaseDates {
        results: vec![
            TmdbReleaseDateResult {
                iso_3166_1: Some("DE".to_string()),
                release_dates: vec![TmdbReleaseDateEntry {
                    certification: Some("16".to_string()),
                    release_type: Some(3),
                    release_date: None,
                }],
            },
            TmdbReleaseDateResult {
                iso_3166_1: Some("US".to_string()),
                release_dates: vec![TmdbReleaseDateEntry {
                    certification: Some("R".to_string()),
                    release_type: Some(3),
                    release_date: None,
                }],
            },
        ],
    };
    let providers = TmdbWatchProviders {
        results: vec![(
            "US".to_string(),
            TmdbWatchProviderRegion {
                link: None,
                buy: vec![provider(2, "Apple TV")],
                rent: Vec::new(),
                flatrate: vec![provider(8, "Netflix")],
            },
        )],
    };
    let w = plan_movie_cache(&matrix(), &Ok(dates), &Ok(providers), "US");
    assert_eq!(w.upsert.id, 603);
    assert_eq!(w.upsert.display_name, "The Matrix");
    assert_eq!(w.upsert.age_rating.as_deref(), Some("R"));
    assert!(w.upsert.details_loaded);
    assert_eq!(w.upsert.genres.len(), 1);
    let kinds: Vec<(bool, &str)> = w
        .upsert
        .watch_providers
        .iter()
        .map(|(k, p)| (matches!(k, ProviderKind::Flatrate), p.provider_name.as_str()))
        .collect();
    assert_eq!(kinds, vec![(true, "Netflix"), (false, "Apple TV")]);
    let stub = w.collection.expect("a collection stub");
    assert_eq!(stub.id, 2344);
    assert!(stub.parts.is_empty());
    assert!(w.credits.is_none() && w.recommendations.is_none() && w.seasons.is_empty());
}

#[test]
fn failed_side_lookups_leave_rating_and_providers_empty() {
    let w = plan_movie_cache(
        &matrix(),
        &Err(AppError::Tmdb("down".to_string())),
        &Err(AppError::Tmdb("down".to_string())),
        "US",
    );
    assert_eq!(w.upsert.age_rating, None);
    assert!(w.upsert.watch_providers.is_empty());
    assert!(w.upsert.details_loaded);
}

#[test]
fn tmdb_answers_and_integrations_default_to_empty() {
    let u = UnsupportedIntegrations::default();
    assert!(u.emby_base_url.is_none() && u.influxdb_server_url.is_none() && !u.oauth2_enabled);
    assert!(u.configured().is_empty());
    assert!(TmdbVideos::default().results.is_empty());
    assert!(TmdbReleaseDates::default().results.is_empty());
    assert!(TmdbContentRatings::default().results.is_empty());
    let copy = TmdbReleaseDates::default().clone();
    assert!(copy.results.is_empty());
}
