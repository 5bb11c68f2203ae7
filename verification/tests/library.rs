use std::collections::HashMap;

use tmdbcache::artwork::{image_rows, read_images};
use tmdbcache::collection::{collection_stub, read_collection, upsert_collection};
use tmdbcache::episode::{find_episode, merge_episode, read_episodes, EpisodeTagRow};
use tmdbcache::model::{
    Cast, Collection, CollectionPart, Crew, Flag, Genre, Image, PersonBase, ProviderKind,
    Network, TvEpisode, VideoBase, VideoType, WatchProvider,
};
use tmdbcache::people::{
    assemble_person, credit_rows, merge_person, merge_person_stub, person_credits, person_needs_fetch,
    read_credits, read_directors, CreditedTitle, JoinedCredit, PersonRow, PersonUpsert,
};
use tmdbcache::ranking::{top_recommendations, RecommendationRow};
use tmdbcache::store::{
    build_movie_recommendations, PersonCreditLimits, local_states, FlagRow, IdTag, ImageOwner, LocalState,
    RecommendationSet, StoredRecommendation, VideoOverrides,
};
use tmdbcache::model::TvEpisodePatch;
use tmdbcache::service::{assemble_movie, assemble_season, cache_needs_fetch, episode_numbers, needs_fetch, plan_episode_patch, TagAction};
use tmdbcache::video::{
    filter_by_tag, genre_entry, hydrate, merge_network, merge_provider, merge_video, NetworkRow, toggle_tag, GenreRow, ProviderRow, TagRow, VideoRecord,
    VideoUpsert,
};

fn movie(id: i64, name: &str) -> VideoUpsert {
    VideoUpsert {
        video_type: VideoType::Movie,
        id,
        display_name: name.to_string(),
        overview: Some("An overview".into()),
        poster_path: Some("/poster.jpg".into()),
        release_date: Some("1999-03-31".into()),
        runtime: Some(136),
        vote_average: Some(82),
        vote_count: Some(24000),
        adult: false,
        details_loaded: true,
        genres: vec![Genre {
            id: 28,
            genre_id: Some(28),
            name: "Action".into(),
        }],
        ..Default::default()
    }
}

fn genre_rows(u: &VideoUpsert) -> Vec<GenreRow> {
    u.genres
        .iter()
        .map(|g| GenreRow {
            video_type: u.video_type,
            video_id: u.id,
            genre: g.clone(),
        })
        .collect()
}

fn tag_rows(t: VideoType, id: i64, tags: &[String]) -> Vec<TagRow> {
    tags.iter()
        .map(|tag| TagRow {
            video_type: t,
            video_id: id,
            tag: tag.clone(),
        })
        .collect()
}

fn stored(u: &VideoUpsert) -> VideoRecord {
    merge_video(None, u, "2024-01-01T00:00:00Z".to_string())
}

#[test]
fn migrations_apply_and_roundtrip_a_movie() {
    let u = movie(603, "The Matrix");
    let rec = stored(&u);
    let found = hydrate(&vec![rec], &Vec::new(), &genre_rows(&u), &Vec::new(), &Vec::new());
    let found = &found[0];
    assert_eq!(found.id, 603);
    assert_eq!(found.display_name, "The Matrix");
    assert_eq!(found.vote_average, Some(82));
    assert_eq!(found.runtime, Some(136));
    assert_eq!(found.genres.len(), 1);
    assert_eq!(found.genres[0].name, "Action");
    assert!(!found.favorite);
    assert!(found.tags.is_empty());
}

#[test]
fn upserting_metadata_preserves_user_state() {
    let mut rec = stored(&movie(603, "The Matrix"));
    rec.set_flag(Flag::Favorite, true);
    let tags = toggle_tag(&Vec::new(), "rewatch", true);
    rec.apply_overrides(&VideoOverrides {
        poster_path: Some("/custom.jpg".into()),
        ..Default::default()
    });

    let mut refreshed = movie(603, "The Matrix (1999)");
    refreshed.poster_path = Some("/upstream.jpg".into());
    let rec = merge_video(Some(&rec), &refreshed, "2024-02-01T00:00:00Z".to_string());

    let found = hydrate(
        &vec![rec],
        &tag_rows(VideoType::Movie, 603, &tags),
        &Vec::new(),
        &Vec::new(),
        &Vec::new(),
    );
    let found = &found[0];
    assert_eq!(found.display_name, "The Matrix (1999)");
    assert!(found.favorite, "favorite flag should survive a refresh");
    assert_eq!(found.tags, vec!["rewatch".to_string()]);
    assert_eq!(
        found.poster_path.as_deref(),
        Some("/custom.jpg"),
        "user override should win over the upstream poster"
    );
}

#[test]
fn tag_filtering_supports_negation() {
    let a = stored(&movie(603, "The Matrix"));
    let b = stored(&movie(604, "The Matrix Reloaded"));
    let tags = toggle_tag(&Vec::new(), "4k", true);
    let all = hydrate(
        &vec![a, b],
        &tag_rows(VideoType::Movie, 603, &tags),
        &Vec::new(),
        &Vec::new(),
        &Vec::new(),
    );
    let all2 = hydrate(
        &vec![stored(&movie(603, "The Matrix")), stored(&movie(604, "The Matrix Reloaded"))],
        &tag_rows(VideoType::Movie, 603, &tags),
        &Vec::new(),
        &Vec::new(),
        &Vec::new(),
    );

    let tagged = filter_by_tag(all, "4k", false);
    assert_eq!(tagged.len(), 1);
    assert_eq!(tagged[0].id, 603);

    let untagged = filter_by_tag(all2, "4k", true);
    assert_eq!(untagged.len(), 1);
    assert_eq!(untagged[0].id, 604);
}

#[test]
fn patching_a_tag_toggles_it() {
    let on = toggle_tag(&Vec::new(), "4k", true);
    assert_eq!(on, vec!["4k".to_string()]);
    let again = toggle_tag(&on, "4k", true);
    assert_eq!(again, vec!["4k".to_string()], "a tag is held at most once");
    let off = toggle_tag(&again, "4k", false);
    assert!(off.is_empty());
}

#[test]
fn watch_providers_are_grouped_by_kind() {
    let u = movie(603, "The Matrix");
    let providers = vec![
        ProviderRow {
            video_type: VideoType::Movie,
            video_id: 603,
            kind: "flatrate".into(),
            provider: WatchProvider {
                logo_path: Some("/nf.jpg".into()),
                provider_id: 8,
                provider_name: "Netflix".into(),
                display_priority: Some(1),
            },
        },
        ProviderRow {
            video_type: VideoType::Movie,
            video_id: 603,
            kind: "buy".into(),
            provider: WatchProvider {
                logo_path: None,
                provider_id: 10,
                provider_name: "Amazon Video".into(),
                display_priority: Some(2),
            },
        },
    ];
    let found = hydrate(&vec![stored(&u)], &Vec::new(), &Vec::new(), &Vec::new(), &providers);
    let found = &found[0];
    assert_eq!(found.flatrate_watch_providers.len(), 1);
    assert_eq!(found.flatrate_watch_providers[0].provider_name, "Netflix");
    assert_eq!(found.buy_watch_providers.len(), 1);
    assert!(found.rent_watch_providers.is_empty());
}

fn person(id: i64, name: &str) -> PersonBase {
    PersonBase {
        id,
        adult: None,
        gender: None,
        known_for_department: None,
        name: name.into(),
        original_name: None,
        popularity: None,
        profile_path: None,
        credit_id: None,
    }
}

#[test]
fn credits_resolve_directors_and_person_backreferences() {
    let mut keanu = person(6384, "Keanu Reeves");
    keanu.profile_path = Some("/keanu.jpg".into());
    let lana = person(9339, "Lana Wachowski");
    let cast = vec![Cast {
        person: keanu.clone(),
        cast_id: Some(34),
        character: Some("Neo".into()),
        order: Some(0),
    }];
    let crew = vec![Crew {
        person: lana.clone(),
        department: Some("Directing".into()),
        job: Some("Director".into()),
    }];
    let rows = credit_rows(&cast, &crew);
    assert_eq!(rows.len(), 2);
    let keanu_row = merge_person_stub(None, &keanu);
    let lana_row = merge_person_stub(None, &lana);
    let mut joined = Vec::new();
    for row in rows {
        let p = if row.person_id == 6384 {
            merge_person_stub(Some(&keanu_row), &keanu)
        } else {
            merge_person_stub(Some(&lana_row), &lana)
        };
        joined.push(JoinedCredit { row, person: p });
    }

    let credits = read_credits(603, &joined).expect("credits should be cached");
    assert_eq!(credits.cast.len(), 1);
    assert_eq!(credits.cast[0].character.as_deref(), Some("Neo"));
    assert_eq!(credits.cast[0].person.profile_path.as_deref(), Some("/keanu.jpg"));
    assert_eq!(credits.crew.len(), 1);

    let directors = read_directors(&joined);
    assert_eq!(directors.len(), 1);
    assert_eq!(directors[0].person.name, "Lana Wachowski");

    let refs = person_credits(
        &vec![CreditedTitle {
            video_id: 603,
            role: Some("Neo".into()),
        }],
        &vec![CreditedTitle {
            video_id: 603,
            role: None,
        }],
        &Vec::new(),
        &PersonCreditLimits { movie_cast: 12, tv_cast: 12, directed: 12 },
    );
    assert_eq!(refs.movie_cast.len(), 1);
    assert_eq!(refs.movie_cast[0].cast_id, 603);
    assert_eq!(refs.movie_cast[0].character, "Neo");
    assert_eq!(refs.directed_movies[0].cast_id, 603);
    assert_eq!(refs.directed_movies[0].character, "Director");
}

#[test]
fn credits_are_absent_until_written() {
    assert!(read_credits(603, &Vec::new()).is_none());
}

#[test]
fn cast_order_defaults_to_position() {
    let cast = vec![
        Cast {
            person: person(1, "A"),
            cast_id: None,
            character: None,
            order: None,
        },
        Cast {
            person: person(2, "B"),
            cast_id: None,
            character: None,
            order: Some(7),
        },
    ];
    let crew = vec![Crew {
        person: person(3, "C"),
        department: None,
        job: None,
    }];
    let rows = credit_rows(&cast, &crew);
    assert_eq!(rows[0].ord, 0);
    assert_eq!(rows[1].ord, 7);
    assert!(!rows[2].is_cast);
    assert_eq!(rows[2].ord, 0);
}

fn image(path: Option<&str>, width: Option<i32>) -> Image {
    Image {
        aspect_ratio: None,
        height: None,
        file_path: path.map(|p| p.to_string()),
        vote_average: None,
        vote_count: None,
        width,
    }
}

#[test]
fn images_distinguish_unfetched_from_empty() {
    assert!(
        read_images(ImageOwner::Movie, 603, false, &Vec::new()).is_none(),
        "never-fetched image sets must read as None so the service knows to fetch"
    );

    let rows = image_rows(ImageOwner::Movie, &Vec::new(), &Vec::new(), &Vec::new());
    let fetched = read_images(ImageOwner::Movie, 603, true, &rows);
    assert!(
        fetched.is_some(),
        "an empty-but-fetched set must not trigger a refetch"
    );
    assert!(fetched.unwrap().posters.is_empty());

    let rows = image_rows(
        ImageOwner::Movie,
        &vec![image(Some("/back.jpg"), Some(1920))],
        &vec![image(Some("/post.jpg"), None)],
        &Vec::new(),
    );
    let images = read_images(ImageOwner::Movie, 603, true, &rows).unwrap();
    assert_eq!(images.backdrops.len(), 1);
    assert_eq!(images.posters.len(), 1);
    assert_eq!(images.backdrops[0].width, Some(1920));
}

#[test]
fn person_artwork_is_kept_as_profiles_and_read_as_posters() {
    let rows = image_rows(
        ImageOwner::Person,
        &Vec::new(),
        &vec![image(Some("/face.jpg"), None), image(None, None)],
        &Vec::new(),
    );
    assert_eq!(rows.len(), 1, "images without a file path are skipped");
    assert_eq!(rows[0].kind, "profile");
    let images = read_images(ImageOwner::Person, 6384, true, &rows).unwrap();
    assert_eq!(images.posters.len(), 1);
    assert_eq!(images.posters[0].file_path.as_deref(), Some("/face.jpg"));
}

#[test]
fn season_images_are_labelled_with_show_and_season() {
    let owner = ImageOwner::TvSeason { season_number: 2 };
    let images = read_images(owner, 1399, true, &Vec::new()).unwrap();
    assert_eq!(images.id, Some(1399));
    assert_eq!(images.tv_show_id, Some(1399));
    assert_eq!(images.season_number, Some(2));
}

fn episode(number: i64, name: &str) -> TvEpisode {
    TvEpisode {
        id: Some(63056),
        air_date: None,
        episode_number: number,
        crew: Vec::new(),
        name: Some(name.into()),
        overview: None,
        production_code: None,
        season_number: Some(1),
        still_path: None,
        vote_average: None,
        vote_count: None,
        on_watchlist: false,
        favorite: false,
        watched: false,
        tags: Vec::new(),
    }
}

#[test]
fn episodes_keep_local_state_across_refresh() {
    let mut rec = merge_episode(None, 1399, 1, &episode(1, "Winter Is Coming"));
    rec.set_flag(Flag::Watched, true);
    let tags = vec![EpisodeTagRow {
        episode_number: 1,
        tag: "favourite-scene".into(),
    }];

    let rec = merge_episode(Some(&rec), 1399, 1, &episode(1, "Winter Is Coming (remastered)"));
    let episodes = read_episodes(&vec![rec], &tags, &Vec::new());
    let stored = find_episode(episodes, 1).unwrap();
    assert_eq!(stored.name.as_deref(), Some("Winter Is Coming (remastered)"));
    assert!(stored.watched, "watched flag should survive a refresh");
    assert_eq!(stored.tags, vec!["favourite-scene".to_string()]);
}

#[test]
fn patching_an_absent_episode_is_a_404() {
    let rec = merge_episode(None, 1399, 1, &episode(2, "The Kingsroad"));
    let episodes = read_episodes(&vec![rec], &Vec::new(), &Vec::new());
    assert!(find_episode(episodes, 1).is_none());
}

fn rec(id: i64, name: &str, vote: Option<i64>) -> StoredRecommendation {
    StoredRecommendation {
        id,
        display_name: name.into(),
        poster_path: None,
        backdrop_path: None,
        vote_average: vote,
        adult: Some(false),
        rec_type: Some("movie".into()),
        release_date: None,
        first_air_date: None,
        age_rating: None,
    }
}

fn row(source: i64, item: StoredRecommendation) -> RecommendationRow {
    RecommendationRow {
        source_type: VideoType::Movie,
        source_id: source,
        item,
    }
}

#[test]
fn top_recommendations_rank_by_overlap_and_exclude_held_titles() {
    let rows = vec![
        row(603, rec(900, "Already Held", Some(90))),
        row(603, rec(700, "Twice Recommended", Some(75))),
        row(604, rec(700, "Twice Recommended", Some(75))),
        row(604, rec(800, "Once Recommended", Some(60))),
        row(604, rec(604, "Reloaded", Some(70))),
    ];
    let held = vec![603, 604, 900];
    let top = top_recommendations(&rows, &held, 10);
    let names: Vec<&str> = top.iter().map(|r| r.display_name.as_str()).collect();
    assert_eq!(
        names,
        vec!["Twice Recommended", "Once Recommended"],
        "most-recommended first, and titles already held are excluded"
    );

    let top = top_recommendations(&rows, &held, 1);
    assert_eq!(top.len(), 1);
    assert_eq!(top[0].display_name, "Twice Recommended");
}

#[test]
fn top_recommendations_break_ties_by_vote() {
    let rows = vec![
        row(1, rec(10, "Low", Some(40))),
        row(1, rec(11, "High", Some(80))),
        row(1, rec(12, "Unrated", None)),
    ];
    let top = top_recommendations(&rows, &Vec::new(), -1);
    let ids: Vec<i64> = top.iter().map(|r| r.id).collect();
    assert_eq!(ids, vec![11, 10, 12]);
}

#[test]
fn top_recommendations_only_count_movie_sources() {
    let rows = vec![RecommendationRow {
        source_type: VideoType::Tvshow,
        source_id: 1399,
        item: rec(5, "From A Show", Some(50)),
    }];
    assert!(top_recommendations(&rows, &Vec::new(), 10).is_empty());
}

#[test]
fn cached_recommendations_carry_local_library_state() {
    let set = RecommendationSet {
        page: Some(1),
        total_pages: Some(1),
        total_results: Some(2),
        items: vec![rec(604, "Reloaded", Some(70)), rec(605, "Revolutions", None)],
    };
    let mut locals = HashMap::new();
    locals.insert(
        604,
        LocalState {
            favorite: false,
            on_watchlist: false,
            watched: true,
            tags: Vec::new(),
        },
    );
    let recs = build_movie_recommendations(603, set, &locals);
    assert_eq!(recs.movie_id, 603);
    assert_eq!(recs.movie_recommendations.len(), 2);
    assert!(
        recs.movie_recommendations[0].base.watched,
        "a recommendation already in the library should report its own state"
    );
    assert!(!recs.movie_recommendations[1].base.watched);
}

#[test]
fn local_states_join_flags_and_tags() {
    let flags = vec![FlagRow {
        video_id: 603,
        favorite: true,
        on_watchlist: false,
        watched: false,
    }];
    let tags = vec![
        IdTag {
            video_id: 603,
            tag: "4k".into(),
        },
        IdTag {
            video_id: 700,
            tag: "later".into(),
        },
        IdTag {
            video_id: 603,
            tag: "rewatch".into(),
        },
    ];
    let locals = local_states(&flags, &tags);
    assert_eq!(locals.len(), 2);
    let m = &locals[&603];
    assert!(m.favorite);
    assert_eq!(m.tags, vec!["4k".to_string(), "rewatch".to_string()]);
    let other = &locals[&700];
    assert!(!other.favorite);
    assert_eq!(other.tags, vec!["later".to_string()]);
}

fn part(id: i64, name: &str) -> CollectionPart {
    let mut base = VideoBase::default();
    base.id = id;
    base.display_name = name.into();
    CollectionPart {
        base,
        original_language: None,
        original_title: None,
        title: Some(name.into()),
        video: None,
    }
}

fn collection(parts: Vec<CollectionPart>) -> Collection {
    Collection {
        id: 2344,
        poster_path: None,
        backdrop_path: None,
        favorite: false,
        on_watchlist: false,
        watched: false,
        name: "The Matrix Collection".into(),
        overview: Some("Neo's journey.".into()),
        parts,
    }
}

#[test]
fn collection_parts_reflect_library_state() {
    let s = upsert_collection(None, &collection(vec![part(603, "The Matrix"), part(605, "Revolutions")]));
    let mut locals = HashMap::new();
    locals.insert(
        603,
        LocalState {
            favorite: true,
            on_watchlist: false,
            watched: false,
            tags: Vec::new(),
        },
    );
    let c = read_collection(&s, &locals);
    assert_eq!(c.name, "The Matrix Collection");
    assert_eq!(c.parts.len(), 2);
    assert!(c.parts[0].base.favorite, "held part shows its flag");
    assert!(!c.parts[1].base.favorite, "unheld part defaults to false");
}

#[test]
fn a_collection_stub_does_not_lose_known_parts() {
    let full = upsert_collection(None, &collection(vec![part(603, "The Matrix")]));
    let stub = collection_stub(2344, &"The Matrix Collection".to_string(), &None, &None);
    let after = upsert_collection(Some(full), &stub);
    assert_eq!(after.parts.len(), 1, "parts should survive a stub write");
    assert_eq!(after.parts[0].movie_id, 603);
    assert_eq!(after.overview, None);
}

fn upsert_person(id: i64, name: &str, bio: Option<&str>) -> PersonUpsert {
    PersonUpsert {
        id,
        name: Some(name.into()),
        original_name: None,
        profile_path: Some("/tmdb.jpg".into()),
        place_of_birth: None,
        biography: bio.map(|b| b.to_string()),
        birthday: None,
        deathday: None,
        gender: None,
        imdb_id: None,
        adult: Some(false),
        popularity: None,
        known_for_department: None,
    }
}

#[test]
fn person_stub_writes_keep_a_fetched_record() {
    let full: PersonRow = merge_person(
        None,
        &upsert_person(6384, "Keanu Reeves", Some("Actor.")),
        Some("2024-01-01T00:00:00Z".into()),
    );
    assert!(full.record().fetched_at.is_some());
    let after = merge_person_stub(Some(&full), &person(6384, "Keanu Reeves"));
    let r = after.record();
    assert!(r.fetched_at.is_some());
    assert_eq!(r.biography.as_deref(), Some("Actor."));
}

#[test]
fn person_profile_override_wins_over_tmdb() {
    let mut p = merge_person(None, &upsert_person(6384, "Keanu Reeves", None), None);
    p.set_profile_override(Some("/custom-face.jpg".into()));
    let p = merge_person(Some(&p), &upsert_person(6384, "Keanu Reeves", None), None);
    assert_eq!(p.record().profile_path.as_deref(), Some("/custom-face.jpg"));
    assert!(p.record().fetched_at.is_none(), "a stub is not marked fetched");
}

#[test]
fn cached_movie_is_served_without_touching_tmdb() {
    let u = movie(603, "The Matrix");
    let rec = stored(&u);
    // Stored and fully loaded: no fetch unless a refresh is asked for.
    assert!(!needs_fetch(false, true, false, rec.details_loaded));
    let extras = rec.extras();
    let base = hydrate(&vec![rec], &Vec::new(), &genre_rows(&u), &Vec::new(), &Vec::new()).remove(0);
    let m = assemble_movie(603, Some(base), Some(extras), Vec::new(), None, None, None, true, true).unwrap();
    assert_eq!(m.base.id, 603);
    assert_eq!(m.base.display_name, "The Matrix");
    assert!(matches!(m.base.video_type, VideoType::Movie));
    assert_eq!(m.base.runtime, Some(136));
    assert_eq!(m.base.vote_average, Some(82));
    assert!(!m.base.favorite && !m.base.watched && !m.base.on_watchlist);
    assert_eq!(m.base.genres[0].name, "Action");
    assert!(m.tagline.is_none());
}

fn matrix_credits() -> Vec<JoinedCredit> {
    let keanu = person(6384, "Keanu Reeves");
    let lana = person(9339, "Lana Wachowski");
    let cast = vec![Cast { person: keanu.clone(), cast_id: None, character: Some("Neo".into()), order: Some(0) }];
    let crew = vec![Crew { person: lana.clone(), department: Some("Directing".into()), job: Some("Director".into()) }];
    credit_rows(&cast, &crew)
        .into_iter()
        .map(|row| {
            let p = if row.person_id == 6384 { &keanu } else { &lana };
            JoinedCredit { row, person: merge_person_stub(None, p) }
        })
        .collect()
}

#[test]
fn movie_credits_are_served_from_cache() {
    // Credits already written are read back rather than fetched.
    assert!(!cache_needs_fetch(false, true));
    let joined = matrix_credits();
    let credits = read_credits(603, &joined).expect("credits are cached");
    assert_eq!(credits.cast[0].person.name, "Keanu Reeves");
    assert_eq!(credits.cast[0].character.as_deref(), Some("Neo"));
    assert_eq!(credits.crew[0].job.as_deref(), Some("Director"));

    // The movie response surfaces directors separately.
    let u = movie(603, "The Matrix");
    let rec = stored(&u);
    let extras = rec.extras();
    let base = hydrate(&vec![rec], &Vec::new(), &Vec::new(), &Vec::new(), &Vec::new()).remove(0);
    let m = assemble_movie(
        603,
        Some(base),
        Some(extras),
        read_directors(&joined),
        Some(credits),
        None,
        None,
        true,
        true,
    )
    .unwrap();
    assert_eq!(m.directors[0].person.name, "Lana Wachowski");
}

#[test]
fn person_page_cross_references_only_held_titles() {
    let mut row = merge_person(
        None,
        &upsert_person(6384, "Keanu Reeves", Some("Actor.")),
        Some("2024-01-01T00:00:00Z".into()),
    );
    // Fully fetched, so the page is served without reaching for TMDB.
    assert!(!person_needs_fetch(false, &Some(row.record())));

    // The credit join yields only titles the library holds: here, movie 603.
    let limits = PersonCreditLimits { movie_cast: 12, tv_cast: 12, directed: 12 };
    let held = || {
        person_credits(&vec![CreditedTitle { video_id: 603, role: Some("Neo".into()) }], &Vec::new(), &Vec::new(), &limits)
    };
    let page = assemble_person(row.record(), held());
    assert_eq!(page.name.as_deref(), Some("Keanu Reeves"));
    // cast_id carries the movie id so the UI can link into the library.
    assert_eq!(page.movie_cast[0].cast_id, 603);
    assert_eq!(page.movie_cast[0].character, "Neo");

    // A profile override replaces the upstream path.
    row.set_profile_override(Some("/custom-face.jpg".into()));
    let page = assemble_person(row.record(), held());
    assert_eq!(page.profile_path.as_deref(), Some("/custom-face.jpg"));
}

/// A library larger than the store's bind chunk must still have every row
/// hydrated exactly once, with its own relations.
#[test]
fn large_libraries_are_hydrated_across_bind_chunks() {
    const COUNT: i64 = 1200;
    let upserts: Vec<VideoUpsert> = (1..=COUNT).map(|id| movie(id, &format!("Movie {id:04}"))).collect();
    let records: Vec<VideoRecord> = upserts.iter().map(stored).collect();
    let genres: Vec<GenreRow> = upserts.iter().flat_map(genre_rows).collect();
    let spot = vec!["spot-check".to_string()];
    let tags: Vec<TagRow> = [1, 700, COUNT]
        .iter()
        .flat_map(|id| tag_rows(VideoType::Movie, *id, &spot))
        .collect();

    let all = hydrate(&records, &tags, &genres, &Vec::new(), &Vec::new());
    assert_eq!(all.len() as i64, COUNT);
    assert!(all.iter().all(|v| v.genres.len() == 1), "every row should be hydrated with its genre");
    let tagged: Vec<i64> = all
        .iter()
        .filter(|v| v.tags.iter().any(|t| t == "spot-check"))
        .map(|v| v.id)
        .collect();
    assert_eq!(tagged, vec![1, 700, COUNT], "tags land on the right rows");

    let flags: Vec<FlagRow> = (1..=COUNT)
        .map(|id| FlagRow { video_id: id, favorite: false, on_watchlist: false, watched: false })
        .collect();
    let id_tags: Vec<IdTag> = [1, 700, COUNT]
        .iter()
        .map(|id| IdTag { video_id: *id, tag: "spot-check".to_string() })
        .collect();
    let states = local_states(&flags, &id_tags);
    assert_eq!(states.len() as i64, COUNT);
    assert_eq!(states[&700].tags, vec!["spot-check".to_string()]);
    assert!(states[&699].tags.is_empty());
}

#[test]
fn season_and_episode_patches_reach_the_right_rows() {
    let season_upsert = VideoUpsert {
        video_type: VideoType::Tvseason,
        id: 3624,
        display_name: "Season 1".into(),
        tv_show_id: Some(1399),
        season_number: Some(1),
        details_loaded: true,
        ..Default::default()
    };
    let season = stored(&season_upsert);
    let mut episodes = vec![
        merge_episode(None, 1399, 1, &episode(1, "Winter Is Coming")),
        merge_episode(None, 1399, 1, &episode(2, "The Kingsroad")),
    ];
    let read = |season: VideoRecord, episodes: &Vec<tmdbcache::episode::EpisodeRecord>| {
        let extras = season.extras();
        let rows = vec![season];
        let base = hydrate(&rows, &Vec::new(), &Vec::new(), &Vec::new(), &Vec::new()).remove(0);
        let view = assemble_season(1399, 1, Some(base), Some(extras), read_episodes(episodes, &Vec::new(), &Vec::new()))
            .unwrap();
        (view, rows.into_iter().next().unwrap())
    };

    // A season is addressed by show id and season number.
    let (view, season) = read(season, &episodes);
    assert_eq!(view.base.season_number, Some(1));
    assert_eq!(view.base.tv_show_id, Some(1399));
    assert_eq!(view.episodes.len(), 2);

    // Mark one episode watched.
    let patch = TvEpisodePatch { tag: Some("watched".into()), checked: Some(true) };
    match plan_episode_patch(&patch).unwrap() {
        Some(TagAction::SetFlag(flag, on)) => {
            assert!(matches!(flag, Flag::Watched) && on);
            episodes[1].set_flag(flag, on);
        }
        other => panic!("expected a flag change, got {other:?}"),
    }
    let patched = find_episode(read_episodes(&episodes, &Vec::new(), &Vec::new()), 2).unwrap();
    assert_eq!(patched.episode_number, 2);
    assert!(patched.watched);

    // The other episode is untouched.
    let (view, mut season) = read(season, &episodes);
    assert!(!view.episodes[0].watched);
    assert!(view.episodes[1].watched);

    // Bulk-mark the season.
    for number in episode_numbers(&view.episodes) {
        for e in episodes.iter_mut().filter(|e| e.episode_number == number) {
            e.set_flag(Flag::Watched, true);
        }
    }
    season.set_flag(Flag::Watched, true);
    let (view, _) = read(season, &episodes);
    assert!(view.episodes[0].watched && view.episodes[1].watched);
    assert!(view.base.watched);
}

fn genre(id: i64, name: &str) -> GenreRow {
    GenreRow { video_type: VideoType::Movie, video_id: 603, genre: Genre { id, genre_id: Some(id), name: name.into() } }
}

fn provider(id: i64, name: &str, priority: Option<i64>) -> ProviderRow {
    ProviderRow {
        video_type: VideoType::Movie,
        video_id: 603,
        kind: "flatrate".into(),
        provider: WatchProvider { logo_path: None, provider_id: id, provider_name: name.into(), display_priority: priority },
    }
}

#[test]
fn relations_read_back_in_sorted_order() {
    let rec = stored(&movie(603, "The Matrix"));
    // Tags switched on in any order read back in text order.
    let tags = toggle_tag(&toggle_tag(&Vec::new(), "b", true), "a", true);
    let genres = vec![genre(2, "Science Fiction"), genre(1, "Action")];
    let networks = vec![
        NetworkRow {
            video_type: VideoType::Movie,
            video_id: 603,
            network: Network {
                id: 2,
                network_id: Some(2),
                name: "Zeta".into(),
                logo_path: None,
                origin_country: None,
                headquarters: None,
                homepage: None,
            },
        },
        NetworkRow {
            video_type: VideoType::Movie,
            video_id: 603,
            network: Network {
                id: 1,
                network_id: Some(1),
                name: "Alpha".into(),
                logo_path: None,
                origin_country: None,
                headquarters: None,
                homepage: None,
            },
        },
    ];
    let providers = vec![provider(3, "Zulu", Some(2)), provider(2, "Beta", Some(1)), provider(1, "Alpha", Some(1)), provider(4, "None", None)];
    let found = hydrate(&vec![rec], &tag_rows(VideoType::Movie, 603, &tags), &genres, &networks, &providers).remove(0);
    assert_eq!(found.tags, vec!["a".to_string(), "b".to_string()]);
    let names: Vec<&str> = found.genres.iter().map(|g| g.name.as_str()).collect();
    assert_eq!(names, vec!["Action", "Science Fiction"]);
    let names: Vec<&str> = found.networks.iter().map(|n| n.name.as_str()).collect();
    assert_eq!(names, vec!["Alpha", "Zeta"]);
    let names: Vec<&str> = found.flatrate_watch_providers.iter().map(|p| p.provider_name.as_str()).collect();
    assert_eq!(names, vec!["None", "Alpha", "Beta", "Zulu"]);
}

#[test]
fn shared_relation_entries_merge_per_id() {
    let g = genre_entry(&Genre { id: 28, genre_id: None, name: "Action & Adventure".into() });
    assert_eq!((g.id, g.genre_id, g.name.as_str()), (28, Some(28), "Action & Adventure"));

    let stored = Network {
        id: 49,
        network_id: Some(49),
        name: "HBO".into(),
        logo_path: Some("/hbo.png".into()),
        origin_country: Some("US".into()),
        headquarters: None,
        homepage: None,
    };
    let written = Network {
        id: 49,
        network_id: None,
        name: "HBO Max".into(),
        logo_path: None,
        origin_country: None,
        headquarters: None,
        homepage: Some("https://hbo.com".into()),
    };
    let n = merge_network(Some(&stored), &written);
    assert_eq!(n.name, "HBO Max");
    assert_eq!(n.logo_path.as_deref(), Some("/hbo.png"));
    assert_eq!(n.origin_country.as_deref(), Some("US"));
    assert_eq!(n.homepage.as_deref(), Some("https://hbo.com"));
    assert_eq!(merge_network(None, &written).logo_path, None);

    let old = WatchProvider { logo_path: Some("/nf.jpg".into()), provider_id: 8, provider_name: "Netflix".into(), display_priority: Some(1) };
    let new = WatchProvider { logo_path: None, provider_id: 8, provider_name: "Netflix Standard".into(), display_priority: None };
    let p = merge_provider(Some(&old), &new);
    assert_eq!(p.provider_name, "Netflix Standard");
    assert_eq!(p.logo_path.as_deref(), Some("/nf.jpg"));
    assert_eq!(p.display_priority, Some(1));
}

#[test]
fn person_references_respect_the_list_limits() {
    let rows: Vec<CreditedTitle> = (1..=5).map(|id| CreditedTitle { video_id: id, role: None }).collect();
    let refs = person_credits(&rows, &rows, &rows, &PersonCreditLimits { movie_cast: 2, tv_cast: -1, directed: 0 });
    assert_eq!(refs.movie_cast.iter().map(|r| r.cast_id).collect::<Vec<_>>(), vec![1, 2]);
    assert_eq!(refs.tv_cast.len(), 5, "a negative limit keeps every row");
    assert!(refs.directed_movies.is_empty());
}

#[test]
fn local_state_tags_read_back_sorted() {
    let tags = vec![
        IdTag { video_id: 1, tag: "zz".into() },
        IdTag { video_id: 1, tag: "aa".into() },
    ];
    let locals = local_states(&Vec::new(), &tags);
    assert_eq!(locals[&1].tags, vec!["aa".to_string(), "zz".to_string()]);
}

#[test]
fn setting_a_tag_twice_is_the_same_as_once() {
    let once = toggle_tag(&vec!["b".to_string()], "a", true);
    let twice = toggle_tag(&once, "a", true);
    assert_eq!(once, twice);
    let off = toggle_tag(&toggle_tag(&once, "a", false), "a", false);
    assert_eq!(off, vec!["b".to_string()]);
}

#[test]
fn a_write_reads_back_its_genres_by_name() {
    let mut u = movie(603, "The Matrix");
    u.genres = vec![
        Genre { id: 878, genre_id: Some(878), name: "Science Fiction".into() },
        Genre { id: 28, genre_id: Some(28), name: "Action".into() },
    ];
    let w = tmdbcache::video::relation_writes(&u);
    let found = hydrate(&vec![stored(&u)], &Vec::new(), &w.genres, &w.networks, &Vec::new()).remove(0);
    let ids: Vec<i64> = found.genres.iter().map(|g| g.id).collect();
    assert_eq!(ids, vec![28, 878]);
    assert!(w.providers.is_none(), "a write without providers keeps the stored ones");
}
