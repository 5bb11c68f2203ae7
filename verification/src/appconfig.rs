//! The client-facing configuration document.

use vstd::prelude::*;

use crate::config::Config;
use crate::text::clone_strings;

verus! {

/// TMDB's `/configuration` image block, cached and passed through to the client
/// so the frontend can build image URLs itself.
#[derive(Debug, Clone)]
pub struct TmdbConfigurationImages {
    pub base_url: Option<String>,
    pub secure_base_url: Option<String>,
    pub backdrop_sizes: Vec<String>,
    pub logo_sizes: Vec<String>,
    pub poster_sizes: Vec<String>,
    pub profile_sizes: Vec<String>,
    pub still_sizes: Vec<String>,
}

impl Default for TmdbConfigurationImages {
    fn default() -> (r: Self)
        ensures
            r.base_url is None,
            r.secure_base_url is None,
            r.backdrop_sizes@.len() == 0,
            r.logo_sizes@.len() == 0,
            r.poster_sizes@.len() == 0,
            r.profile_sizes@.len() == 0,
            r.still_sizes@.len() == 0,
    {
        TmdbConfigurationImages {
            base_url: None,
            secure_base_url: None,
            backdrop_sizes: Vec::new(),
            logo_sizes: Vec::new(),
            poster_sizes: Vec::new(),
            profile_sizes: Vec::new(),
            still_sizes: Vec::new(),
        }
    }
}

#[derive(Debug, Clone)]
pub struct AppConfig {
    pub images: Option<TmdbConfigurationImages>,
    /// Sorted set of provider names.
    pub subscribed_watch_providers: Vec<String>,
    pub show_movie_cast: bool,
    pub show_tv_cast: bool,
    pub show_recommendations: bool,
    pub require_login: bool,
    pub oauth2_enabled: bool,
    pub use_movie_backgrounds: bool,
    pub add_media_type_header: bool,
    pub dark_state: bool,
    pub support_detail_cards: bool,
    pub max_cards: i64,
    pub max_light_cards: i64,
    pub number_of_recommendations: i64,
    pub number_of_top_recommendations: i64,
    pub default_mobile_poster_width: i64,
    pub default_desktop_poster_width: i64,
    pub low_rating_threshold: i64,
    pub high_rating_threshold: i64,
    pub emby_base_url: Option<String>,
    /// Sorted set of wallpaper file names.
    pub wallpapers: Vec<String>,
    pub show_tvshows_in_videolist: bool,
    pub show_tvseasons_in_videolist: bool,
}

impl AppConfig {
    /// The document the UI bootstraps from. Authentication is not implemented,
    /// so it never asks the UI to require a login.
    pub fn build(cfg: &Config, images: Option<TmdbConfigurationImages>, wallpapers: Vec<String>) -> (r:
        AppConfig)
        ensures
            r.images == images,
            r.subscribed_watch_providers@ == cfg.subscribed_watch_providers@,
            r.show_movie_cast == cfg.show_movie_cast,
            r.show_tv_cast == cfg.show_tv_cast,
            r.show_recommendations == cfg.show_recommendations,
            !r.require_login,
            !r.oauth2_enabled,
            r.use_movie_backgrounds == cfg.use_movie_backgrounds,
            r.add_media_type_header == cfg.add_media_type_header,
            r.dark_state,
            r.support_detail_cards == cfg.support_detail_cards,
            r.max_cards == cfg.max_cards,
            r.max_light_cards == cfg.max_light_cards,
            r.number_of_recommendations == cfg.number_of_recommendations,
            r.number_of_top_recommendations == cfg.number_of_top_recommendations,
            r.default_mobile_poster_width == cfg.default_mobile_poster_width,
            r.default_desktop_poster_width == cfg.default_desktop_poster_width,
            r.low_rating_threshold == cfg.low_rating_threshold,
            r.high_rating_threshold == cfg.high_rating_threshold,
            r.emby_base_url is None,
            r.wallpapers == wallpapers,
            r.show_tvshows_in_videolist == cfg.show_tvshows_in_videolist,
            r.show_tvseasons_in_videolist == cfg.show_tvseasons_in_videolist,
    {
        AppConfig {
            images,
            subscribed_watch_providers: clone_strings(&cfg.subscribed_watch_providers),
            show_movie_cast: cfg.show_movie_cast,
            show_tv_cast: cfg.show_tv_cast,
            show_recommendations: cfg.show_recommendations,
            require_login: false,
            oauth2_enabled: false,
            use_movie_backgrounds: cfg.use_movie_backgrounds,
            add_media_type_header: cfg.add_media_type_header,
            dark_state: true,
            support_detail_cards: cfg.support_detail_cards,
            max_cards: cfg.max_cards,
            max_light_cards: cfg.max_light_cards,
            number_of_recommendations: cfg.number_of_recommendations,
            number_of_top_recommendations: cfg.number_of_top_recommendations,
            default_mobile_poster_width: cfg.default_mobile_poster_width,
            default_desktop_poster_width: cfg.default_desktop_poster_width,
            low_rating_threshold: cfg.low_rating_threshold,
            high_rating_threshold: cfg.high_rating_threshold,
            emby_base_url: None,
            wallpapers,
            show_tvshows_in_videolist: cfg.show_tvshows_in_videolist,
            show_tvseasons_in_videolist: cfg.show_tvseasons_in_videolist,
        }
    }
}

} // verus!
