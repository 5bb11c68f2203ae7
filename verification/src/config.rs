//! Application configuration, read from `MOVIEDB_*` environment variables.
//!
//! The caller hands over the process environment as name/value pairs; every
//! setting is then derived from it here. Variable names and defaults follow the
//! published MovieDB configuration, so an existing deployment's settings keep
//! their meaning.

use vstd::prelude::*;
use vstd::string::*;

use crate::error::AppError;
use crate::text::{
    holds_str, insert_sorted, parse_bool, parse_bool_spec, parse_i64, parse_i64_spec,
    sorted_strs, str_eq, trim, trim_spec,
};

verus! {

/// The value of the first variable named `key`.
pub open spec fn env_lookup(vars: Seq<(String, String)>, key: Seq<char>) -> Option<Seq<char>>
    decreases vars.len(),
{
    if vars.len() == 0 {
        None
    } else if vars[0].0@ == key {
        Some(vars[0].1@)
    } else {
        env_lookup(vars.drop_first(), key)
    }
}

/// A variable's value, unless it is unset or blank.
pub open spec fn opt_str_spec(vars: Seq<(String, String)>, key: Seq<char>) -> Option<Seq<char>> {
    match env_lookup(vars, key) {
        Some(v) => if trim_spec(v).len() > 0 {
            Some(v)
        } else {
            None
        },
        None => None,
    }
}

pub open spec fn env_str_spec(
    vars: Seq<(String, String)>,
    key: Seq<char>,
    default: Seq<char>,
) -> Seq<char> {
    match opt_str_spec(vars, key) {
        Some(v) => v,
        None => default,
    }
}

/// A boolean variable: its trimmed value parsed as `true`/`false`, else the
/// default.
pub open spec fn env_bool_spec(vars: Seq<(String, String)>, key: Seq<char>, default: bool) -> bool {
    match opt_str_spec(vars, key) {
        Some(v) => match parse_bool_spec(trim_spec(v)) {
            Some(b) => b,
            None => default,
        },
        None => default,
    }
}

/// A boolean read from `primary`, falling back to the legacy `secondary` name.
pub open spec fn bool_either_spec(
    vars: Seq<(String, String)>,
    primary: Seq<char>,
    secondary: Seq<char>,
) -> Option<bool> {
    let raw = match opt_str_spec(vars, primary) {
        Some(v) => Some(v),
        None => opt_str_spec(vars, secondary),
    };
    match raw {
        Some(v) => parse_bool_spec(trim_spec(v)),
        None => None,
    }
}

/// An integer variable: its trimmed value parsed as an `i64`, else the default.
pub open spec fn env_i64_spec(vars: Seq<(String, String)>, key: Seq<char>, default: i64) -> i64 {
    match opt_str_spec(vars, key) {
        Some(v) => match parse_i64_spec(trim_spec(v)) {
            Some(n) => n,
            None => default,
        },
        None => default,
    }
}

/// The pieces of `s` between commas, in order (`str::split(',')`).
pub open spec fn split_commas(s: Seq<char>) -> Seq<Seq<char>>
    decreases s.len(),
{
    if s.len() == 0 {
        seq![Seq::empty()]
    } else {
        let p = split_commas(s.drop_last());
        if s.last() == ',' {
            p.push(Seq::empty())
        } else {
            p.update(p.len() - 1, p.last().push(s.last()))
        }
    }
}

/// Whether `t` is one of the trimmed, non-empty comma-separated items of `s`.
pub open spec fn csv_item(s: Seq<char>, t: Seq<char>) -> bool {
    t.len() > 0 && exists|i: int|
        0 <= i < split_commas(s).len() && trim_spec(#[trigger] split_commas(s)[i]) == t
}

/// The set of items of a comma-separated variable; unset means empty.
pub open spec fn env_csv_item(vars: Seq<(String, String)>, key: Seq<char>, t: Seq<char>) -> bool {
    match opt_str_spec(vars, key) {
        Some(v) => csv_item(v, t),
        None => false,
    }
}

proof fn lemma_split_commas_nonempty(s: Seq<char>)
    ensures
        split_commas(s).len() >= 1,
    decreases s.len(),
{
    if s.len() > 0 {
        lemma_split_commas_nonempty(s.drop_last());
    }
}

fn lookup<'a>(vars: &'a Vec<(String, String)>, key: &str) -> (r: Option<&'a String>)
    ensures
        match r {
            Some(v) => env_lookup(vars@, key@) == Some(v@),
            None => env_lookup(vars@, key@) is None,
        },
{
    let mut i: usize = 0;
    assert(vars@.skip(0) =~= vars@);
    while i < vars.len()
        invariant
            i <= vars@.len(),
            env_lookup(vars@, key@) == env_lookup(vars@.skip(i as int), key@),
        decreases vars@.len() - i,
    {
        proof {
            assert(vars@.skip(i as int)[0] == vars@[i as int]);
            assert(vars@.skip(i as int).drop_first() =~= vars@.skip(i + 1));
        }
        if str_eq(vars[i].0.as_str(), key) {
            return Some(&vars[i].1);
        }
        i = i + 1;
    }
    None
}

/// A variable's value, unless it is unset or blank.
pub fn opt_str(vars: &Vec<(String, String)>, key: &str) -> (r: Option<String>)
    ensures
        match r {
            Some(v) => opt_str_spec(vars@, key@) == Some(v@),
            None => opt_str_spec(vars@, key@) is None,
        },
{
    match lookup(vars, key) {
        Some(v) => {
            if trim(v.as_str()).unicode_len() > 0 {
                Some(v.clone())
            } else {
                None
            }
        },
        None => None,
    }
}

/// A variable that must be set: `"{key} must be set"` otherwise.
pub fn req_str(vars: &Vec<(String, String)>, key: &str) -> (r: Result<String, AppError>)
    ensures
        match r {
            Ok(v) => opt_str_spec(vars@, key@) == Some(v@),
            Err(AppError::Config(m)) => opt_str_spec(vars@, key@) is None && m@ == key@
                + " must be set"@,
            Err(_) => false,
        },
{
    match opt_str(vars, key) {
        Some(v) => Ok(v),
        None => {
            let mut m = String::from_str(key);
            m.append(" must be set");
            Err(AppError::Config(m))
        },
    }
}

pub fn env_str(vars: &Vec<(String, String)>, key: &str, default: &str) -> (r: String)
    ensures
        r@ == env_str_spec(vars@, key@, default@),
{
    match opt_str(vars, key) {
        Some(v) => v,
        None => String::from_str(default),
    }
}

pub fn env_bool(vars: &Vec<(String, String)>, key: &str, default: bool) -> (r: bool)
    ensures
        r == env_bool_spec(vars@, key@, default),
{
    match opt_str(vars, key) {
        Some(v) => match parse_bool(trim(v.as_str())) {
            Some(b) => b,
            None => default,
        },
        None => default,
    }
}

/// Reads a boolean from `primary`, falling back to the legacy `secondary` name.
pub fn bool_either(vars: &Vec<(String, String)>, primary: &str, secondary: &str) -> (r: Option<
    bool,
>)
    ensures
        r == bool_either_spec(vars@, primary@, secondary@),
{
    let raw = match opt_str(vars, primary) {
        Some(v) => Some(v),
        None => opt_str(vars, secondary),
    };
    match raw {
        Some(v) => parse_bool(trim(v.as_str())),
        None => None,
    }
}

pub fn env_i64(vars: &Vec<(String, String)>, key: &str, default: i64) -> (r: i64)
    ensures
        r == env_i64_spec(vars@, key@, default),
{
    match opt_str(vars, key) {
        Some(v) => match parse_i64(trim(v.as_str())) {
            Some(n) => n,
            None => default,
        },
        None => default,
    }
}

/// Adds the trimmed piece `s[start..end]` to the set when it is not blank.
fn add_piece(out: &mut Vec<String>, s: &str, start: usize, end: usize)
    requires
        start <= end <= s@.len(),
        sorted_strs(old(out)@),
    ensures
        sorted_strs(final(out)@),
        forall|t: Seq<char>|
            #[trigger] holds_str(final(out)@, t) <==> (holds_str(old(out)@, t) || (t.len() > 0
                && t == trim_spec(s@.subrange(start as int, end as int)))),
{
    let piece = trim(s.substring_char(start, end));
    if piece.unicode_len() > 0 {
        insert_sorted(out, String::from_str(piece));
    }
}

/// The trimmed, non-empty comma-separated items of `s`, as a sorted set.
pub fn csv_set(s: &str) -> (r: Vec<String>)
    ensures
        sorted_strs(r@),
        forall|t: Seq<char>| #[trigger] holds_str(r@, t) <==> csv_item(s@, t),
{
    let n = s.unicode_len();
    let mut out: Vec<String> = Vec::new();
    let mut start: usize = 0;
    let mut i: usize = 0;
    let ghost mut done: Seq<Seq<char>> = Seq::empty();
    assert(s@.take(0) =~= Seq::<char>::empty());
    assert(split_commas(s@.take(0)) =~= done.push(s@.subrange(0, 0)));
    while i < n
        invariant
            n == s@.len(),
            start <= i <= n,
            sorted_strs(out@),
            split_commas(s@.take(i as int)) == done.push(s@.subrange(start as int, i as int)),
            forall|t: Seq<char>|
                #[trigger] holds_str(out@, t) <==> (t.len() > 0 && exists|k: int|
                    0 <= k < done.len() && trim_spec(#[trigger] done[k]) == t),
        decreases n - i,
    {
        let c = s.get_char(i);
        assert(s@.take(i + 1).drop_last() =~= s@.take(i as int));
        assert(s@.take(i + 1).last() == c);
        if c == ',' {
            let ghost piece = s@.subrange(start as int, i as int);
            let ghost before = out@;
            add_piece(&mut out, s, start, i);
            proof {
                let nd = done.push(piece);
                assert forall|t: Seq<char>| #[trigger]
                    holds_str(out@, t) <==> (t.len() > 0 && exists|k: int|
                        0 <= k < nd.len() && trim_spec(#[trigger] nd[k]) == t) by {
                    if t.len() > 0 && exists|k: int|
                        0 <= k < nd.len() && trim_spec(#[trigger] nd[k]) == t {
                        let k = choose|k: int| 0 <= k < nd.len() && trim_spec(#[trigger] nd[k]) == t;
                        if k < done.len() {
                            assert(nd[k] == done[k]);
                            assert(holds_str(before, t));
                        }
                    }
                    if holds_str(before, t) {
                        let k = choose|k: int|
                            0 <= k < done.len() && trim_spec(#[trigger] done[k]) == t;
                        assert(nd[k] == done[k]);
                    }
                    if t.len() > 0 && t == trim_spec(piece) {
                        assert(nd[done.len() as int] == piece);
                    }
                }
                let t1 = s@.take(i + 1);
                assert(t1.len() > 0 && t1.last() == ',');
                assert(split_commas(t1) == split_commas(t1.drop_last()).push(Seq::<char>::empty()));
                assert(s@.subrange(i + 1, i + 1) =~= Seq::<char>::empty());
                assert(split_commas(t1) =~= nd.push(s@.subrange(i + 1, i + 1)));
                done = nd;
            }
            start = i + 1;
        } else {
            proof {
                lemma_split_commas_nonempty(s@.take(i as int));
                assert(s@.subrange(start as int, i + 1) =~= s@.subrange(start as int, i as int).push(
                    c,
                ));
                assert(split_commas(s@.take(i + 1)) =~= done.push(
                    s@.subrange(start as int, i + 1),
                ));
            }
        }
        i = i + 1;
    }
    let ghost piece = s@.subrange(start as int, n as int);
    let ghost before = out@;
    add_piece(&mut out, s, start, n);
    proof {
        assert(s@.take(n as int) =~= s@);
        let all = done.push(piece);
        assert(split_commas(s@) == all);
        assert forall|t: Seq<char>| #[trigger] holds_str(out@, t) <==> csv_item(s@, t) by {
            if csv_item(s@, t) {
                let k = choose|k: int|
                    0 <= k < split_commas(s@).len() && trim_spec(#[trigger] split_commas(s@)[k])
                        == t;
                if k < done.len() {
                    assert(all[k] == done[k]);
                    assert(holds_str(before, t));
                }
            }
            if holds_str(before, t) {
                let k = choose|k: int| 0 <= k < done.len() && trim_spec(#[trigger] done[k]) == t;
                assert(all[k] == done[k]);
                assert(split_commas(s@)[k] == done[k]);
            }
            if t.len() > 0 && t == trim_spec(piece) {
                assert(split_commas(s@)[done.len() as int] == piece);
            }
        }
    }
    out
}

/// A comma-separated variable as a sorted set of its trimmed, non-empty items.
pub fn env_csv(vars: &Vec<(String, String)>, key: &str) -> (r: Vec<String>)
    ensures
        sorted_strs(r@),
        forall|t: Seq<char>| #[trigger] holds_str(r@, t) <==> env_csv_item(vars@, key@, t),
{
    match opt_str(vars, key) {
        Some(v) => csv_set(v.as_str()),
        None => Vec::new(),
    }
}

/// Unsupported-but-recognised integrations (Emby library sync, InfluxDB
/// metrics, OAuth2/Keycloak). They are not implemented; the variables are still
/// read so that a configured deployment is warned about rather than silently
/// ignored.
#[derive(Debug, Clone)]
pub struct UnsupportedIntegrations {
    pub emby_base_url: Option<String>,
    pub influxdb_server_url: Option<String>,
    pub oauth2_enabled: bool,
}

impl Default for UnsupportedIntegrations {
    fn default() -> (r: Self)
        ensures
            r.emby_base_url is None,
            r.influxdb_server_url is None,
            !r.oauth2_enabled,
    {
        UnsupportedIntegrations {
            emby_base_url: None,
            influxdb_server_url: None,
            oauth2_enabled: false,
        }
    }
}

/// The names of the integrations a configuration asks for, in a fixed order.
pub open spec fn configured_names(u: UnsupportedIntegrations) -> Seq<Seq<char>> {
    let a: Seq<Seq<char>> = if u.emby_base_url is Some {
        seq!["Emby"@]
    } else {
        Seq::empty()
    };
    let b: Seq<Seq<char>> = if u.influxdb_server_url is Some {
        a.push("InfluxDB"@)
    } else {
        a
    };
    if u.oauth2_enabled {
        b.push("OAuth2/Keycloak"@)
    } else {
        b
    }
}

impl UnsupportedIntegrations {
    /// Names of integrations that were configured but will not be honoured.
    pub fn configured(&self) -> (r: Vec<&'static str>)
        ensures
            r@.map_values(|s: &str| s@) == configured_names(*self),
    {
        let mut out: Vec<&'static str> = Vec::new();
        if self.emby_base_url.is_some() {
            out.push("Emby");
        }
        if self.influxdb_server_url.is_some() {
            out.push("InfluxDB");
        }
        if self.oauth2_enabled {
            out.push("OAuth2/Keycloak");
        }
        assert(out@.map_values(|s: &str| s@) =~= configured_names(*self));
        out
    }
}

/// `PathBuf::join` with a relative component: a separator is added unless the
/// base is empty or already ends in one.
pub open spec fn join_path(base: Seq<char>, name: Seq<char>) -> Seq<char> {
    if base.len() == 0 || base.last() == '/' {
        base + name
    } else {
        base + seq!['/'] + name
    }
}

fn join(base: &String, name: &str) -> (r: String)
    ensures
        r@ == join_path(base@, name@),
{
    let n = base.as_str().unicode_len();
    let mut out = base.clone();
    if n > 0 && base.as_str().get_char(n - 1) != '/' {
        out.append("/");
    }
    proof {
        reveal_strlit("/");
    }
    out.append(name);
    out
}

#[derive(Debug, Clone)]
pub struct Config {
    pub port: u16,
    pub tmdb_api_key: String,
    pub tmdb_language: String,
    pub tmdb_region: String,
    pub database_path: String,
    pub image_cache_path: String,
    /// Sorted set of provider names.
    pub subscribed_watch_providers: Vec<String>,
    pub show_movie_cast: bool,
    pub show_tv_cast: bool,
    pub show_recommendations: bool,
    pub use_movie_backgrounds: bool,
    pub add_media_type_header: bool,
    pub support_detail_cards: bool,
    pub show_tvshows_in_videolist: bool,
    pub show_tvseasons_in_videolist: bool,
    pub max_cards: i64,
    pub max_light_cards: i64,
    pub number_of_recommendations: i64,
    pub number_of_top_recommendations: i64,
    pub number_of_movie_cast_references: i64,
    pub number_of_tv_cast_references: i64,
    pub number_of_directed_movies: i64,
    pub default_mobile_poster_width: i64,
    pub default_desktop_poster_width: i64,
    pub low_rating_threshold: i64,
    pub high_rating_threshold: i64,
    pub unsupported: UnsupportedIntegrations,
}

/// Every setting of `c` is the one the environment `vars` asks for, with the
/// documented defaults. `MOVIEDB_SHOW_CAST` and
/// `MOVIEDB_NUMBER_OF_CAST_REFERENCES` are the legacy fallbacks of the
/// per-media-type settings.
pub open spec fn config_from_env(c: Config, vars: Seq<(String, String)>) -> bool {
    let show_cast = env_bool_spec(vars, "MOVIEDB_SHOW_CAST"@, true);
    let cast_refs = env_i64_spec(vars, "MOVIEDB_NUMBER_OF_CAST_REFERENCES"@, 12);
    &&& c.port == env_i64_spec(vars, "MOVIEDB_PORT"@, 8081) as u16
    &&& opt_str_spec(vars, "MOVIEDB_TMDB_APIKEY"@) == Some(c.tmdb_api_key@)
    &&& c.tmdb_language@ == env_str_spec(vars, "MOVIEDB_TMDB_LANGUAGE"@, "en-US"@)
    &&& c.tmdb_region@ == env_str_spec(vars, "MOVIEDB_TMDB_REGION"@, "US"@)
    &&& c.database_path@ == env_str_spec(vars, "MOVIEDB_DATABASE_PATH"@, "./database"@)
    &&& c.image_cache_path@ == env_str_spec(vars, "MOVIEDB_IMAGE_CACHE_PATH"@, "./imageCache"@)
    &&& sorted_strs(c.subscribed_watch_providers@)
    &&& forall|t: Seq<char>| #[trigger]
        holds_str(c.subscribed_watch_providers@, t) <==> env_csv_item(
            vars,
            "MOVIEDB_SUBSCRIBED_WATCH_PROVIDERS"@,
            t,
        )
    &&& c.show_movie_cast == env_bool_spec(vars, "MOVIEDB_SHOW_MOVIE_CAST"@, show_cast)
    &&& c.show_tv_cast == env_bool_spec(vars, "MOVIEDB_SHOW_TV_CAST"@, show_cast)
    &&& c.show_recommendations == env_bool_spec(vars, "MOVIEDB_SHOW_RECOMMENDATIONS"@, true)
    &&& c.use_movie_backgrounds == env_bool_spec(vars, "MOVIEDB_USE_MOVIEBACKGROUNDS"@, true)
    &&& c.add_media_type_header == env_bool_spec(
        vars,
        "MOVIEDB_ADD_MEDIATYPE_HEADER_TO_VIDEOCARD"@,
        true,
    )
    &&& c.support_detail_cards == env_bool_spec(vars, "MOVIEDB_SUPPORT_DETAIL_CARDS"@, false)
    &&& c.show_tvshows_in_videolist == env_bool_spec(
        vars,
        "MOVIEDB_SHOW_TVSHOWS_IN_VIDEOLIST"@,
        true,
    )
    &&& c.show_tvseasons_in_videolist == env_bool_spec(
        vars,
        "MOVIEDB_SHOW_TVSEASONS_IN_VIDEOLIST"@,
        true,
    )
    &&& c.max_cards == env_i64_spec(vars, "MOVIEDB_LIST_MAX_CARDS"@, 200)
    &&& c.max_light_cards == env_i64_spec(vars, "MOVIEDB_LIST_MAX_LIGHT_CARDS"@, 300)
    &&& c.number_of_recommendations == env_i64_spec(vars, "MOVIEDB_NUMBER_OF_RECOMMENDATIONS"@, 12)
    &&& c.number_of_top_recommendations == env_i64_spec(
        vars,
        "MOVIEDB_NUMBER_OF_TOP_RECOMMENDATIONS"@,
        12,
    )
    &&& c.number_of_movie_cast_references == env_i64_spec(
        vars,
        "MOVIEDB_NUMBER_OF_MOVIE_CAST_REFERENCES"@,
        cast_refs,
    )
    &&& c.number_of_tv_cast_references == env_i64_spec(
        vars,
        "MOVIEDB_NUMBER_OF_TV_CAST_REFERENCES"@,
        cast_refs,
    )
    &&& c.number_of_directed_movies == env_i64_spec(vars, "MOVIEDB_NUMBER_OF_DIRECTED_MOVIES"@, 12)
    &&& c.default_mobile_poster_width == env_i64_spec(
        vars,
        "MOVIEDB_DEFAULT_MOBILE_POSTERWIDTH"@,
        133,
    )
    &&& c.default_desktop_poster_width == env_i64_spec(
        vars,
        "MOVIEDB_DEFAULT_DESKTOP_POSTERWIDTH"@,
        220,
    )
    &&& c.low_rating_threshold == env_i64_spec(vars, "MOVIEDB_LOW_RATING_THRESHOLD"@, 40)
    &&& c.high_rating_threshold == env_i64_spec(vars, "MOVIEDB_HIGH_RATING_THRESHOLD"@, 70)
    &&& match c.unsupported.emby_base_url {
        Some(v) => opt_str_spec(vars, "MOVIEDB_EMBY_BASEURL"@) == Some(v@),
        None => opt_str_spec(vars, "MOVIEDB_EMBY_BASEURL"@) is None,
    }
    &&& match c.unsupported.influxdb_server_url {
        Some(v) => opt_str_spec(vars, "MOVIEDB_INFLUXDB_SERVER_URL"@) == Some(v@),
        None => opt_str_spec(vars, "MOVIEDB_INFLUXDB_SERVER_URL"@) is None,
    }
    &&& bool_either_spec(vars, "MOVIEDB_OAUTH2_ENABLED"@, "MOVIEDB_KEYCLOAK_ENABLED"@) == Some(
        c.unsupported.oauth2_enabled,
    )
}

impl Config {
    /// Reads the configuration from the process environment, given as
    /// name/value pairs. The API key and the Keycloak (or OAuth2) switch are
    /// required; everything else has a default.
    pub fn from_env(vars: &Vec<(String, String)>) -> (r: Result<Config, AppError>)
        ensures
            match r {
                Ok(c) => config_from_env(c, vars@),
                Err(AppError::Config(m)) => if opt_str_spec(vars@, "MOVIEDB_TMDB_APIKEY"@) is None {
                    m@ == "MOVIEDB_TMDB_APIKEY"@ + " must be set"@
                } else {
                    bool_either_spec(vars@, "MOVIEDB_OAUTH2_ENABLED"@, "MOVIEDB_KEYCLOAK_ENABLED"@)
                        is None && m@ == "MOVIEDB_KEYCLOAK_ENABLED (or MOVIEDB_OAUTH2_ENABLED) must be set"@
                },
                Err(_) => false,
            },
    {
        let tmdb_api_key = match req_str(vars, "MOVIEDB_TMDB_APIKEY") {
            Ok(k) => k,
            Err(e) => {
                return Err(e);
            },
        };
        let oauth2_enabled = match bool_either(
            vars,
            "MOVIEDB_OAUTH2_ENABLED",
            "MOVIEDB_KEYCLOAK_ENABLED",
        ) {
            Some(b) => b,
            None => {
                return Err(
                    AppError::Config(
                        String::from_str(
                            "MOVIEDB_KEYCLOAK_ENABLED (or MOVIEDB_OAUTH2_ENABLED) must be set",
                        ),
                    ),
                );
            },
        };
        let show_cast = env_bool(vars, "MOVIEDB_SHOW_CAST", true);
        let cast_refs = env_i64(vars, "MOVIEDB_NUMBER_OF_CAST_REFERENCES", 12);
        let port_value = env_i64(vars, "MOVIEDB_PORT", 8081);
        Ok(
            Config {
                port: port_value as u16,
                tmdb_api_key,
                tmdb_language: env_str(vars, "MOVIEDB_TMDB_LANGUAGE", "en-US"),
                tmdb_region: env_str(vars, "MOVIEDB_TMDB_REGION", "US"),
                database_path: env_str(vars, "MOVIEDB_DATABASE_PATH", "./database"),
                image_cache_path: env_str(vars, "MOVIEDB_IMAGE_CACHE_PATH", "./imageCache"),
                subscribed_watch_providers: env_csv(vars, "MOVIEDB_SUBSCRIBED_WATCH_PROVIDERS"),
                show_movie_cast: env_bool(vars, "MOVIEDB_SHOW_MOVIE_CAST", show_cast),
                show_tv_cast: env_bool(vars, "MOVIEDB_SHOW_TV_CAST", show_cast),
                show_recommendations: env_bool(vars, "MOVIEDB_SHOW_RECOMMENDATIONS", true),
                use_movie_backgrounds: env_bool(vars, "MOVIEDB_USE_MOVIEBACKGROUNDS", true),
                add_media_type_header: env_bool(
                    vars,
                    "MOVIEDB_ADD_MEDIATYPE_HEADER_TO_VIDEOCARD",
                    true,
                ),
                support_detail_cards: env_bool(vars, "MOVIEDB_SUPPORT_DETAIL_CARDS", false),
                show_tvshows_in_videolist: env_bool(
                    vars,
                    "MOVIEDB_SHOW_TVSHOWS_IN_VIDEOLIST",
                    true,
                ),
                show_tvseasons_in_videolist: env_bool(
                    vars,
                    "MOVIEDB_SHOW_TVSEASONS_IN_VIDEOLIST",
                    true,
                ),
                max_cards: env_i64(vars, "MOVIEDB_LIST_MAX_CARDS", 200),
                max_light_cards: env_i64(vars, "MOVIEDB_LIST_MAX_LIGHT_CARDS", 300),
                number_of_recommendations: env_i64(vars, "MOVIEDB_NUMBER_OF_RECOMMENDATIONS", 12),
                number_of_top_recommendations: env_i64(
                    vars,
                    "MOVIEDB_NUMBER_OF_TOP_RECOMMENDATIONS",
                    12,
                ),
                number_of_movie_cast_references: env_i64(
                    vars,
                    "MOVIEDB_NUMBER_OF_MOVIE_CAST_REFERENCES",
                    cast_refs,
                ),
                number_of_tv_cast_references: env_i64(
                    vars,
                    "MOVIEDB_NUMBER_OF_TV_CAST_REFERENCES",
                    cast_refs,
                ),
                number_of_directed_movies: env_i64(vars, "MOVIEDB_NUMBER_OF_DIRECTED_MOVIES", 12),
                default_mobile_poster_width: env_i64(
                    vars,
                    "MOVIEDB_DEFAULT_MOBILE_POSTERWIDTH",
                    133,
                ),
                default_desktop_poster_width: env_i64(
                    vars,
                    "MOVIEDB_DEFAULT_DESKTOP_POSTERWIDTH",
                    220,
                ),
                low_rating_threshold: env_i64(vars, "MOVIEDB_LOW_RATING_THRESHOLD", 40),
                high_rating_threshold: env_i64(vars, "MOVIEDB_HIGH_RATING_THRESHOLD", 70),
                unsupported: UnsupportedIntegrations {
                    emby_base_url: opt_str(vars, "MOVIEDB_EMBY_BASEURL"),
                    influxdb_server_url: opt_str(vars, "MOVIEDB_INFLUXDB_SERVER_URL"),
                    oauth2_enabled,
                },
            },
        )
    }

    /// The SQLite database file inside the database directory.
    pub fn database_file(&self) -> (r: String)
        ensures
            r@ == join_path(self.database_path@, "moviedb.db"@),
    {
        join(&self.database_path, "moviedb.db")
    }

    /// Directory that caches TMDB images, keyed by their TMDB path.
    pub fn image_dir(&self) -> (r: String)
        ensures
            r@ == self.image_cache_path@,
    {
        self.image_cache_path.clone()
    }

    /// User-supplied wallpapers, watched for changes at runtime.
    pub fn wallpaper_dir(&self) -> (r: String)
        ensures
            r@ == join_path(self.image_cache_path@, "wallpapers"@),
    {
        join(&self.image_cache_path, "wallpapers")
    }
}

/// `str::parse::<u16>`: an optional `+`, then ASCII digits whose value fits in
/// a `u16`.
pub open spec fn parse_u16_spec(s: Seq<char>) -> Option<u16> {
    if s.len() > 0 && s[0] == '-' {
        None
    } else {
        match parse_i64_spec(s) {
            Some(v) => if 0 <= v <= 65535 {
                Some(v as u16)
            } else {
                None
            },
            None => None,
        }
    }
}

/// The port the health probe checks: `MOVIEDB_PORT` when it is a valid port
/// number, else 8081. The probe reads only this variable, so it works without
/// the rest of the configuration.
pub fn healthcheck_port(value: Option<&str>) -> (r: u16)
    ensures
        r == match value {
            Some(v) => match parse_u16_spec(v@) {
                Some(p) => p,
                None => 8081u16,
            },
            None => 8081u16,
        },
{
    match value {
        Some(v) => {
            if v.unicode_len() > 0 && v.get_char(0) == '-' {
                return 8081;
            }
            match parse_i64(v) {
                Some(p) => if 0 <= p && p <= 65535 {
                    p as u16
                } else {
                    8081
                },
                None => 8081,
            }
        },
        None => 8081,
    }
}

} // verus!
