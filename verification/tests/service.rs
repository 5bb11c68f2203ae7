use std::collections::HashMap;

use tmdbcache::appconfig::AppConfig;
use tmdbcache::config::Config;
use tmdbcache::dto::{TmdbCollection, TmdbMovieBrief, TmdbPaged, TmdbSeason, TmdbSeasonBrief};
use tmdbcache::error::AppError;
use tmdbcache::mapper::{recommendation_set, season_brief_upsert, season_upsert};
use tmdbcache::model::{Flag, VideoBase, VideoPatch, VideoType};
use tmdbcache::collection::{collection_needs_fetch, map_collection};
use tmdbcache::ordering::{list_all_videos, search_outcome, search_query, search_results, sort_by_popularity};
use tmdbcache::model::SearchResult;
use tmdbcache::service::{
    assemble_movie, assemble_season, movie_cards, needs_fetch, plan_tag, plan_video_patch,
    refresh_outcome, require_found, season_needs_fetch, top_cards, top_limit, trailer_of,
    TagAction,
};
use tmdbcache::store::{LocalState, StoredRecommendation};
use tmdbcache::video::VideoExtras;
use tmdbcache::wallpaper::{check_wallpaper, scan_wallpapers};

fn env(pairs: &[(&str, &str)]) -> Vec<(String, String)> {
    pairs
        .iter()
        .map(|(k, v)| (k.to_string(), v.to_string()))
        .collect()
}

fn not_found_message<T: std::fmt::Debug>(r: Result<T, AppError>) -> String {
    match r {
        Err(AppError::NotFound(m)) => m,
        other => panic!("expected not found, got {other:?}"),
    }
}

fn bad_request_message<T: std::fmt::Debug>(r: Result<T, AppError>) -> String {
    match r {
        Err(AppError::BadRequest(m)) => m,
        other => panic!("expected a bad request, got {other:?}"),
    }
}

#[test]
fn configuration_reports_the_env_derived_settings() {
    let vars = env(&[
        ("MOVIEDB_TMDB_APIKEY", "test-key"),
        ("MOVIEDB_KEYCLOAK_ENABLED", "false"),
    ]);
    let cfg = Config::from_env(&vars).unwrap();
    let config = AppConfig::build(&cfg, None, Vec::new());
    assert_eq!(config.max_cards, 200);
    assert_eq!(config.low_rating_threshold, 40);
    assert_eq!(config.high_rating_threshold, 70);
    assert_eq!(config.default_desktop_poster_width, 220);
    assert!(!config.require_login);
    assert!(!config.oauth2_enabled);
}

#[test]
fn missing_api_key_is_a_configuration_error() {
    match Config::from_env(&env(&[("MOVIEDB_KEYCLOAK_ENABLED", "false")])) {
        Err(AppError::Config(m)) => assert_eq!(m, "MOVIEDB_TMDB_APIKEY must be set"),
        other => panic!("expected a configuration error, got {other:?}"),
    }
}

#[test]
fn deleting_an_absent_movie_is_a_404() {
    assert_eq!(not_found_message(require_found(false, "movie", 999999)), "movie 999999");
    assert!(require_found(true, "movie", 603).is_ok());
}

#[test]
fn blank_search_is_a_bad_request() {
    assert_eq!(bad_request_message(search_query(" ")), "query must not be blank");
    assert_eq!(search_query("  matrix ").unwrap(), "matrix");
}

#[test]
fn blank_tags_are_rejected() {
    let patch = VideoPatch {
        tag: Some("   ".into()),
        checked: Some(true),
        poster_path: Some("/mine.jpg".into()),
        backdrop_path: None,
        overview: None,
        imdb_id: None,
        wer_streamt_es_id: None,
    };
    assert_eq!(bad_request_message(plan_video_patch(&patch)), "tag must not be blank");
}

#[test]
fn reserved_tags_drive_the_flag_columns() {
    for (tag, flag) in [
        ("favorite", Flag::Favorite),
        ("watched", Flag::Watched),
        ("onWatchlist", Flag::Watchlist),
    ] {
        match plan_tag(&Some(tag.to_string()), Some(true)).unwrap() {
            Some(TagAction::SetFlag(f, true)) => assert_eq!(f, flag, "{tag} should set its flag"),
            _ => panic!("{tag} is a flag, not a freeform tag"),
        }
    }
    match plan_tag(&Some(" 4k ".to_string()), None).unwrap() {
        Some(TagAction::SetTag(t, true)) => assert_eq!(t, "4k", "absent checked means add"),
        _ => panic!("4k is a freeform tag"),
    }
    assert!(plan_tag(&None, Some(false)).unwrap().is_none());
}

#[test]
fn patch_overrides_win_over_upstream_values() {
    let patch = VideoPatch {
        tag: None,
        checked: None,
        poster_path: Some("/mine.jpg".into()),
        backdrop_path: None,
        overview: Some("My own summary".into()),
        imdb_id: None,
        wer_streamt_es_id: None,
    };
    let (tag, overrides) = plan_video_patch(&patch).unwrap();
    assert!(tag.is_none());
    assert_eq!(overrides.poster_path.as_deref(), Some("/mine.jpg"));
    assert_eq!(overrides.overview.as_deref(), Some("My own summary"));
    assert!(overrides.backdrop_path.is_none());
}

#[test]
fn fetch_decisions_follow_the_cache() {
    assert!(needs_fetch(true, true, false, true));
    assert!(needs_fetch(false, false, false, false));
    assert!(needs_fetch(false, true, true, false));
    assert!(!needs_fetch(false, true, true, true));
    assert!(!needs_fetch(false, true, false, false));
    assert!(season_needs_fetch(false, true, false));
    assert!(!season_needs_fetch(false, true, true));
}

#[test]
fn a_failed_refresh_falls_back_to_the_cached_copy() {
    let failed: Result<i32, AppError> = Err(AppError::Tmdb("down".into()));
    assert!(matches!(refresh_outcome(failed, true), Ok(None)));
    let failed: Result<i32, AppError> = Err(AppError::Tmdb("down".into()));
    assert!(matches!(refresh_outcome(failed, false), Err(AppError::Tmdb(_))));
    assert!(matches!(refresh_outcome(Ok(3), true), Ok(Some(3))));
}

fn base(id: i64, name: &str, video_type: VideoType) -> VideoBase {
    let mut b = VideoBase::default();
    b.id = id;
    b.display_name = name.into();
    b.video_type = video_type;
    b
}

#[test]
fn empty_library_returns_empty_lists() {
    assert!(movie_cards(Vec::new(), 200).is_empty());
    assert!(list_all_videos(Vec::new(), Vec::new(), Vec::new(), true, true, 300).is_empty());
}

#[test]
fn listings_are_capped_at_the_configured_count() {
    let bases = vec![base(1, "a", VideoType::Movie), base(2, "b", VideoType::Movie), base(3, "c", VideoType::Movie)];
    let cards = movie_cards(bases, 2);
    assert_eq!(cards.len(), 2);
    assert_eq!(cards[0].base.id, 1);
    assert_eq!(cards[1].base.id, 2);
    assert!(cards[0].credits.is_none());
    let none = movie_cards(vec![base(1, "a", VideoType::Movie)], -5);
    assert!(none.is_empty());
}

#[test]
fn videos_list_spans_media_types() {
    let videos = list_all_videos(
        vec![base(603, "The Matrix", VideoType::Movie)],
        vec![base(1399, "Game of Thrones", VideoType::Tvshow)],
        Vec::new(),
        true,
        false,
        300,
    );
    assert_eq!(videos.len(), 2);
    assert_eq!(videos[0].display_name, "Game of Thrones");
    assert_eq!(videos[0].video_type, VideoType::Tvshow);
    assert_eq!(videos[1].video_type, VideoType::Movie);
}

#[test]
fn videos_list_ignores_case_and_excluded_kinds() {
    let videos = list_all_videos(
        vec![base(1, "alpha", VideoType::Movie), base(2, "Beta", VideoType::Movie)],
        vec![base(3, "Aardvark", VideoType::Tvshow)],
        vec![base(4, "Season 1", VideoType::Tvseason)],
        false,
        true,
        300,
    );
    let ids: Vec<i64> = videos.iter().map(|v| v.id).collect();
    assert_eq!(ids, vec![1, 2, 4]);
}

fn brief(id: i64, title: &str, popularity: Option<f32>) -> TmdbMovieBrief {
    TmdbMovieBrief {
        id,
        title: Some(title.into()),
        name: None,
        original_title: None,
        original_language: None,
        overview: None,
        poster_path: None,
        backdrop_path: None,
        release_date: None,
        first_air_date: Some("2011-04-17".into()),
        vote_average: Some(84),
        vote_count: None,
        popularity: popularity.map(|p| p.to_bits()),
        adult: false,
        video: None,
        media_type: None,
        genre_ids: vec![18],
    }
}

#[test]
fn search_interleaves_movies_and_shows_by_popularity() {
    let movies = vec![brief(603, "The Matrix", Some(10.0)), brief(604, "Reloaded", None)];
    let shows = vec![brief(1399, "Game of Thrones", Some(50.0))];
    let mut locals = HashMap::new();
    locals.insert(
        603,
        LocalState {
            favorite: true,
            on_watchlist: false,
            watched: false,
            tags: vec!["4k".into()],
        },
    );
    let response = search_results(&movies, &shows, &locals, &HashMap::new());
    let ids: Vec<i64> = response.results.iter().map(|r| r.base.id).collect();
    assert_eq!(ids, vec![1399, 603, 604]);
    assert_eq!(response.results[0].base.video_type, VideoType::Tvshow);
    assert!(response.results[1].base.favorite);
    assert_eq!(response.results[1].base.tags, vec!["4k".to_string()]);
    assert_eq!(
        response.results[0].base.release_date.as_deref(),
        Some("2011-04-17"),
        "a show's first air date stands in for its release date"
    );
}

#[test]
fn popularity_order_puts_negative_scores_last_and_keeps_ties() {
    let hit = |id: i64, p: Option<f32>| SearchResult {
        base: {
            let mut b = VideoBase::default();
            b.id = id;
            b.popularity = p.map(|v| v.to_bits());
            b
        },
        genre_ids: Vec::new(),
    };
    let sorted = sort_by_popularity(vec![
        hit(1, Some(-2.0)),
        hit(2, None),
        hit(3, Some(0.5)),
        hit(4, Some(0.0)),
    ]);
    let ids: Vec<i64> = sorted.iter().map(|r| r.base.id).collect();
    assert_eq!(ids, vec![3, 2, 4, 1]);
}

#[test]
fn one_failed_search_is_tolerated_both_are_not() {
    let ok: Result<Vec<i32>, AppError> = Ok(vec![1]);
    let err: Result<Vec<i32>, AppError> = Err(AppError::Tmdb("down".into()));
    let (m, s) = search_outcome(ok, err).unwrap();
    assert_eq!(m, vec![1]);
    assert!(s.is_empty());
    let a: Result<Vec<i32>, AppError> = Err(AppError::Tmdb("movies".into()));
    let b: Result<Vec<i32>, AppError> = Err(AppError::Tmdb("shows".into()));
    match search_outcome(a, b) {
        Err(AppError::Tmdb(m)) => assert_eq!(m, "movies"),
        other => panic!("expected the movie search's error, got {other:?}"),
    }
}

fn extras(collection_id: Option<i64>, trailer: Option<&str>) -> VideoExtras {
    VideoExtras {
        tagline: Some("Free your mind".into()),
        original_title: None,
        collection_id,
        trailer_key: trailer.map(|t| t.to_string()),
        external_id: None,
        air_date: None,
        episode_count: None,
        details_loaded: true,
    }
}

#[test]
fn cached_movie_is_assembled_from_its_parts() {
    let m = assemble_movie(
        603,
        Some(base(603, "The Matrix", VideoType::Movie)),
        Some(extras(None, Some("m8e-FF8MsqU"))),
        Vec::new(),
        None,
        None,
        None,
        true,
        true,
    )
    .unwrap();
    assert_eq!(m.base.display_name, "The Matrix");
    assert_eq!(m.tagline.as_deref(), Some("Free your mind"));
    assert_eq!(m.trailer_key.as_deref(), Some("m8e-FF8MsqU"));
    assert!(m.belongs_to_collection.is_none());
    assert_eq!(
        not_found_message(assemble_movie(7, None, None, Vec::new(), None, None, None, true, true)),
        "movie 7"
    );
}

#[test]
fn trailer_is_not_found_without_a_key() {
    assert_eq!(trailer_of(603, Some(extras(None, Some("abc")))).unwrap().trailer_key, "abc");
    assert_eq!(not_found_message(trailer_of(603, None)), "trailer for movie 603");
}

#[test]
fn missing_season_names_show_and_season() {
    assert_eq!(
        not_found_message(assemble_season(1399, 3, None, None, Vec::new())),
        "season 3 of tv show 1399"
    );
}

#[test]
fn top_limit_falls_back_to_configuration_and_is_never_negative() {
    assert_eq!(top_limit(Some(3), 20), 3);
    assert_eq!(top_limit(None, 20), 20);
    assert_eq!(top_limit(Some(-1), 20), 0);
}

#[test]
fn top_recommendations_become_movie_cards() {
    let cards = top_cards(vec![StoredRecommendation {
        id: 700,
        display_name: "Twice Recommended".into(),
        poster_path: None,
        backdrop_path: None,
        vote_average: Some(75),
        adult: None,
        rec_type: Some("movie".into()),
        release_date: None,
        first_air_date: None,
        age_rating: None,
    }]);
    assert_eq!(cards.len(), 1);
    assert_eq!(cards[0].base.id, 700);
    assert_eq!(cards[0].base.video_type, VideoType::Movie);
    assert!(!cards[0].base.adult);
}

#[test]
fn recommendation_kinds_follow_media_type() {
    let mut tv = brief(1, "Show", None);
    tv.media_type = Some("tv".into());
    let plain = brief(2, "Plain", None);
    let paged = TmdbPaged {
        page: Some(1),
        results: vec![tv, plain],
        total_pages: Some(3),
        total_results: Some(2),
    };
    let set = recommendation_set(&paged, VideoType::Movie);
    assert_eq!(set.total_pages, Some(3));
    assert_eq!(set.items[0].rec_type.as_deref(), Some("tvshow"));
    assert_eq!(set.items[1].rec_type.as_deref(), Some("movie"));
    assert_eq!(set.items[1].adult, Some(false));
}

#[test]
fn seasons_without_an_id_get_a_synthetic_key_and_a_name() {
    let b = TmdbSeasonBrief {
        id: None,
        name: None,
        overview: None,
        poster_path: None,
        season_number: Some(0),
        episode_count: Some(3),
        air_date: None,
        vote_average: None,
    };
    let u = season_brief_upsert(1399, &b).unwrap();
    assert_eq!(u.id, -1399000);
    assert_eq!(u.display_name, "Season 0");
    assert!(!u.details_loaded);

    let mut nameless = b;
    nameless.season_number = None;
    assert!(season_brief_upsert(1399, &nameless).is_none());

    let full = TmdbSeason {
        id: Some(3624),
        external_id: None,
        name: Some("Season 1".into()),
        overview: None,
        poster_path: None,
        season_number: Some(1),
        air_date: None,
        vote_average: Some(83),
        episodes: Vec::new(),
    };
    let u = season_upsert(1399, &full);
    assert_eq!(u.id, 3624);
    assert_eq!(u.episode_count, Some(0));
    assert!(u.details_loaded);
}

#[test]
fn collections_are_fetched_until_they_have_parts() {
    let dto = TmdbCollection {
        id: 2344,
        name: "The Matrix Collection".into(),
        overview: None,
        poster_path: None,
        backdrop_path: None,
        parts: vec![brief(603, "The Matrix", Some(1.0))],
    };
    let c = map_collection(&dto);
    assert_eq!(c.parts.len(), 1);
    assert_eq!(c.parts[0].base.display_name, "The Matrix");
    assert!(!collection_needs_fetch(false, &Some(c)));
    assert!(collection_needs_fetch(false, &None));
}

#[test]
fn unknown_wallpaper_is_a_404() {
    let listing = scan_wallpapers(&vec![
        "b.PNG".to_string(),
        "a.jpg".to_string(),
        "notes.txt".to_string(),
        ".jpg".to_string(),
    ]);
    assert_eq!(listing, vec!["a.jpg".to_string(), "b.PNG".to_string()]);
    assert!(check_wallpaper(&listing, "a.jpg").is_ok());
    assert_eq!(not_found_message(check_wallpaper(&listing, "nope.jpg")), "wallpaper nope.jpg");
}
