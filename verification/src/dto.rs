//! The parts of TMDB v3 responses the library reads, and the choices it makes
//! among them (which trailer, which certification, which rating).

use vstd::prelude::*;
use vstd::string::*;

use crate::text::{ascii_lower_spec, clone_opt, eq_ignore_ascii_case, str_eq};

verus! {

#[derive(Debug, Clone)]
pub struct TmdbGenre {
    pub id: i64,
    pub name: String,
}

impl Default for TmdbGenre {
    fn default() -> (r: Self)
        ensures
            r.id == 0,
            r.name@.len() == 0,
    {
        TmdbGenre {
            id: 0,
            name: String::new(),
        }
    }
}

#[derive(Debug, Clone)]
pub struct TmdbNetwork {
    pub id: i64,
    pub name: String,
    pub logo_path: Option<String>,
    pub origin_country: Option<String>,
    pub headquarters: Option<String>,
    pub homepage: Option<String>,
}

impl Default for TmdbNetwork {
    fn default() -> (r: Self)
        ensures
            r.id == 0,
            r.name@.len() == 0,
            r.logo_path is None,
            r.origin_country is None,
            r.headquarters is None,
            r.homepage is None,
    {
        TmdbNetwork {
            id: 0,
            name: String::new(),
            logo_path: None,
            origin_country: None,
            headquarters: None,
            homepage: None,
        }
    }
}

#[derive(Debug, Clone)]
pub struct TmdbPaged<T> {
    pub page: Option<i64>,
    pub results: Vec<T>,
    pub total_pages: Option<i64>,
    pub total_results: Option<i64>,
}

impl<T> Default for TmdbPaged<T> {
    fn default() -> (r: Self)
        ensures
            r.page is None,
            r.results@.len() == 0,
            r.total_pages is None,
            r.total_results is None,
    {
        TmdbPaged {
            page: None,
            results: Vec::new(),
            total_pages: None,
            total_results: None,
        }
    }
}

#[derive(Debug, Clone)]
pub struct TmdbVideo {
    pub key: Option<String>,
    pub site: Option<String>,
    pub video_type: Option<String>,
    pub official: bool,
    pub published_at: Option<String>,
}

impl Default for TmdbVideo {
    fn default() -> (r: Self)
        ensures
            r.key is None,
            r.site is None,
            r.video_type is None,
            !r.official,
            r.published_at is None,
    {
        TmdbVideo {
            key: None,
            site: None,
            video_type: None,
            official: false,
            published_at: None,
        }
    }
}

#[derive(Debug, Clone)]
pub struct TmdbVideos {
    pub results: Vec<TmdbVideo>,
}

impl Default for TmdbVideos {
    fn default() -> (r: Self)
        ensures
            r.results@.len() == 0,
    {
        TmdbVideos {
            results: Vec::new(),
        }
    }
}

/// A clip hosted on YouTube (any letter case) that has a key.
pub open spec fn is_youtube(v: TmdbVideo) -> bool {
    &&& v.key is Some
    &&& v.site matches Some(s) && ascii_lower_spec(s@) == ascii_lower_spec("YouTube"@)
}

/// A clip whose type is `Trailer` (any letter case).
pub open spec fn is_trailer(v: TmdbVideo) -> bool {
    v.video_type matches Some(t) && ascii_lower_spec(t@) == ascii_lower_spec("Trailer"@)
}

/// Trailer preference: official YouTube trailers, then YouTube trailers, then
/// any YouTube clip.
pub open spec fn video_rank_ok(v: TmdbVideo, tier: int) -> bool {
    is_youtube(v) && (tier >= 2 || (is_trailer(v) && (tier >= 1 || v.official)))
}

/// The index of the first clip acceptable at `tier`, if any.
pub open spec fn first_video(s: Seq<TmdbVideo>, tier: int) -> Option<int>
    decreases s.len(),
{
    if s.len() == 0 {
        None
    } else {
        match first_video(s.drop_last(), tier) {
            Some(i) => Some(i),
            None => if video_rank_ok(s.last(), tier) {
                Some(s.len() - 1)
            } else {
                None
            },
        }
    }
}

/// The index of the clip the trailer choice settles on.
pub open spec fn best_trailer_index(s: Seq<TmdbVideo>) -> Option<int> {
    match first_video(s, 0) {
        Some(i) => Some(i),
        None => match first_video(s, 1) {
            Some(i) => Some(i),
            None => first_video(s, 2),
        },
    }
}

fn video_ok(v: &TmdbVideo, tier: u8) -> (r: bool)
    requires
        tier <= 2,
    ensures
        r == video_rank_ok(*v, tier as int),
{
    let youtube = v.key.is_some() && match &v.site {
        Some(s) => eq_ignore_ascii_case(s.as_str(), "YouTube"),
        None => false,
    };
    let trailer = match &v.video_type {
        Some(t) => eq_ignore_ascii_case(t.as_str(), "Trailer"),
        None => false,
    };
    youtube && (tier >= 2 || (trailer && (tier >= 1 || v.official)))
}

fn find_video(s: &Vec<TmdbVideo>, tier: u8) -> (r: Option<usize>)
    requires
        tier <= 2,
    ensures
        match r {
            Some(i) => first_video(s@, tier as int) == Some(i as int),
            None => first_video(s@, tier as int) is None,
        },
{
    let mut i: usize = 0;
    while i < s.len()
        invariant
            i <= s@.len(),
            tier <= 2,
            first_video(s@.take(i as int), tier as int) is None,
        decreases s@.len() - i,
    {
        assert(s@.take(i + 1).drop_last() =~= s@.take(i as int));
        if video_ok(&s[i], tier) {
            proof {
                lemma_first_video_prefix(s@, tier as int, i as int + 1);
            }
            return Some(i);
        }
        i = i + 1;
    }
    assert(s@.take(i as int) =~= s@);
    None
}

proof fn lemma_first_video_prefix(s: Seq<TmdbVideo>, tier: int, k: int)
    requires
        0 < k <= s.len(),
        first_video(s.take(k), tier) == Some(k - 1),
    ensures
        first_video(s, tier) == Some(k - 1),
    decreases s.len() - k,
{
    if k < s.len() {
        let t = s.drop_last();
        assert(t.take(k) =~= s.take(k));
        lemma_first_video_prefix(t, tier, k);
    } else {
        assert(s.take(k) =~= s);
    }
}

impl TmdbVideos {
    /// Best YouTube trailer key: official trailers first, then any trailer, then
    /// any YouTube clip at all.
    pub fn best_trailer_key(&self) -> (r: Option<String>)
        ensures
            match best_trailer_index(self.results@) {
                Some(i) => r == self.results@[i].key,
                None => r is None,
            },
    {
        let found = match find_video(&self.results, 0) {
            Some(i) => Some(i),
            None => match find_video(&self.results, 1) {
                Some(i) => Some(i),
                None => find_video(&self.results, 2),
            },
        };
        match found {
            Some(i) => {
                proof {
                    lemma_first_video_bounds(self.results@, 0);
                    lemma_first_video_bounds(self.results@, 1);
                    lemma_first_video_bounds(self.results@, 2);
                }
                clone_opt(&self.results[i].key)
            },
            None => None,
        }
    }
}

proof fn lemma_first_video_bounds(s: Seq<TmdbVideo>, tier: int)
    ensures
        first_video(s, tier) matches Some(i) ==> 0 <= i < s.len(),
    decreases s.len(),
{
    if s.len() > 0 {
        lemma_first_video_bounds(s.drop_last(), tier);
    }
}

#[derive(Debug, Clone)]
pub struct TmdbProvider {
    pub logo_path: Option<String>,
    pub provider_id: i64,
    pub provider_name: String,
    pub display_priority: Option<i64>,
}

impl Default for TmdbProvider {
    fn default() -> (r: Self)
        ensures
            r.logo_path is None,
            r.provider_id == 0,
            r.provider_name@.len() == 0,
            r.display_priority is None,
    {
        TmdbProvider {
            logo_path: None,
            provider_id: 0,
            provider_name: String::new(),
            display_priority: None,
        }
    }
}

#[derive(Debug, Clone)]
pub struct TmdbWatchProviderRegion {
    pub link: Option<String>,
    pub buy: Vec<TmdbProvider>,
    pub rent: Vec<TmdbProvider>,
    pub flatrate: Vec<TmdbProvider>,
}

impl Default for TmdbWatchProviderRegion {
    fn default() -> (r: Self)
        ensures
            r.link is None,
            r.buy@.len() == 0,
            r.rent@.len() == 0,
            r.flatrate@.len() == 0,
    {
        TmdbWatchProviderRegion {
            link: None,
            buy: Vec::new(),
            rent: Vec::new(),
            flatrate: Vec::new(),
        }
    }
}

/// Providers per region code. The codes are distinct, as the keys of the JSON
/// object they come from are.
#[derive(Debug, Clone)]
pub struct TmdbWatchProviders {
    pub results: Vec<(String, TmdbWatchProviderRegion)>,
}

impl Default for TmdbWatchProviders {
    fn default() -> (r: Self)
        ensures
            r.results@.len() == 0,
    {
        TmdbWatchProviders {
            results: Vec::new(),
        }
    }
}

#[derive(Debug, Clone)]
pub struct TmdbReleaseDateEntry {
    pub certification: Option<String>,
    pub release_type: Option<i64>,
    pub release_date: Option<String>,
}

impl Default for TmdbReleaseDateEntry {
    fn default() -> (r: Self)
        ensures
            r.certification is None,
            r.release_type is None,
            r.release_date is None,
    {
        TmdbReleaseDateEntry {
            certification: None,
            release_type: None,
            release_date: None,
        }
    }
}

#[derive(Debug, Clone)]
pub struct TmdbReleaseDateResult {
    pub iso_3166_1: Option<String>,
    pub release_dates: Vec<TmdbReleaseDateEntry>,
}

impl Default for TmdbReleaseDateResult {
    fn default() -> (r: Self)
        ensures
            r.iso_3166_1 is None,
            r.release_dates@.len() == 0,
    {
        TmdbReleaseDateResult {
            iso_3166_1: None,
            release_dates: Vec::new(),
        }
    }
}

#[derive(Debug, Clone)]
pub struct TmdbReleaseDates {
    pub results: Vec<TmdbReleaseDateResult>,
}

impl Default for TmdbReleaseDates {
    fn default() -> (r: Self)
        ensures
            r.results@.len() == 0,
    {
        TmdbReleaseDates {
            results: Vec::new(),
        }
    }
}

/// A certification worth showing: present and not empty.
pub open spec fn usable(c: Option<String>) -> bool {
    c matches Some(s) && s@.len() > 0
}

/// The first usable certification among a region's release dates.
pub open spec fn first_certification(d: Seq<TmdbReleaseDateEntry>) -> Option<String>
    decreases d.len(),
{
    if d.len() == 0 {
        None
    } else {
        match first_certification(d.drop_last()) {
            Some(c) => Some(c),
            None => if usable(d.last().certification) {
                d.last().certification
            } else {
                None
            },
        }
    }
}

/// Whether a result is for the region `region`.
pub open spec fn is_region(code: Option<String>, region: Seq<char>) -> bool {
    code matches Some(c) && c@ == region
}

/// The index of the first result for `region`.
pub open spec fn first_region_result(r: Seq<TmdbReleaseDateResult>, region: Seq<char>) -> Option<
    int,
>
    decreases r.len(),
{
    if r.len() == 0 {
        None
    } else {
        match first_region_result(r.drop_last(), region) {
            Some(i) => Some(i),
            None => if is_region(r.last().iso_3166_1, region) {
                Some(r.len() - 1)
            } else {
                None
            },
        }
    }
}

/// The first certification of any region, in result order.
pub open spec fn any_certification(r: Seq<TmdbReleaseDateResult>) -> Option<String>
    decreases r.len(),
{
    if r.len() == 0 {
        None
    } else {
        match any_certification(r.drop_last()) {
            Some(c) => Some(c),
            None => first_certification(r.last().release_dates@),
        }
    }
}

/// The certification for `region`, falling back to the first one of any region.
pub open spec fn certification_for(r: Seq<TmdbReleaseDateResult>, region: Seq<char>) -> Option<
    String,
> {
    let own = match first_region_result(r, region) {
        Some(i) => first_certification(r[i].release_dates@),
        None => None,
    };
    match own {
        Some(c) => Some(c),
        None => any_certification(r),
    }
}

fn pick_certification(d: &Vec<TmdbReleaseDateEntry>) -> (r: Option<String>)
    ensures
        r == first_certification(d@),
{
    let mut i: usize = 0;
    while i < d.len()
        invariant
            i <= d@.len(),
            first_certification(d@.take(i as int)) is None,
        decreases d@.len() - i,
    {
        assert(d@.take(i + 1).drop_last() =~= d@.take(i as int));
        let usable_here = match &d[i].certification {
            Some(c) => c.as_str().unicode_len() > 0,
            None => false,
        };
        if usable_here {
            proof {
                lemma_first_certification_prefix(d@, i as int + 1);
            }
            return clone_opt(&d[i].certification);
        }
        i = i + 1;
    }
    assert(d@.take(i as int) =~= d@);
    None
}

proof fn lemma_first_certification_prefix(d: Seq<TmdbReleaseDateEntry>, k: int)
    requires
        0 < k <= d.len(),
        first_certification(d.take(k)) is Some,
    ensures
        first_certification(d) == first_certification(d.take(k)),
    decreases d.len() - k,
{
    if k < d.len() {
        let t = d.drop_last();
        assert(t.take(k) =~= d.take(k));
        lemma_first_certification_prefix(t, k);
    } else {
        assert(d.take(k) =~= d);
    }
}

proof fn lemma_first_region_bounds(r: Seq<TmdbReleaseDateResult>, region: Seq<char>)
    ensures
        first_region_result(r, region) matches Some(i) ==> 0 <= i < r.len(),
    decreases r.len(),
{
    if r.len() > 0 {
        lemma_first_region_bounds(r.drop_last(), region);
    }
}

proof fn lemma_first_region_prefix(r: Seq<TmdbReleaseDateResult>, region: Seq<char>, k: int)
    requires
        0 < k <= r.len(),
        first_region_result(r.take(k), region) is Some,
    ensures
        first_region_result(r, region) == first_region_result(r.take(k), region),
    decreases r.len() - k,
{
    if k < r.len() {
        let t = r.drop_last();
        assert(t.take(k) =~= r.take(k));
        lemma_first_region_prefix(t, region, k);
    } else {
        assert(r.take(k) =~= r);
    }
}

proof fn lemma_any_certification_prefix(r: Seq<TmdbReleaseDateResult>, k: int)
    requires
        0 < k <= r.len(),
        any_certification(r.take(k)) is Some,
    ensures
        any_certification(r) == any_certification(r.take(k)),
    decreases r.len() - k,
{
    if k < r.len() {
        let t = r.drop_last();
        assert(t.take(k) =~= r.take(k));
        lemma_any_certification_prefix(t, k);
    } else {
        assert(r.take(k) =~= r);
    }
}

fn region_matches(code: &Option<String>, region: &str) -> (r: bool)
    ensures
        r == is_region(*code, region@),
{
    match code {
        Some(c) => str_eq(c.as_str(), region),
        None => false,
    }
}

fn find_region(r: &Vec<TmdbReleaseDateResult>, region: &str) -> (out: Option<usize>)
    ensures
        match out {
            Some(i) => first_region_result(r@, region@) == Some(i as int),
            None => first_region_result(r@, region@) is None,
        },
{
    let mut i: usize = 0;
    while i < r.len()
        invariant
            i <= r@.len(),
            first_region_result(r@.take(i as int), region@) is None,
        decreases r@.len() - i,
    {
        assert(r@.take(i + 1).drop_last() =~= r@.take(i as int));
        if region_matches(&r[i].iso_3166_1, region) {
            proof {
                lemma_first_region_prefix(r@, region@, i as int + 1);
            }
            return Some(i);
        }
        i = i + 1;
    }
    assert(r@.take(i as int) =~= r@);
    None
}

impl TmdbReleaseDates {
    /// Certification for `region`, falling back to the first non-empty one.
    pub fn certification(&self, region: &str) -> (r: Option<String>)
        ensures
            r == certification_for(self.results@, region@),
    {
        proof {
            lemma_first_region_bounds(self.results@, region@);
        }
        let own = match find_region(&self.results, region) {
            Some(i) => pick_certification(&self.results[i].release_dates),
            None => None,
        };
        if own.is_some() {
            return own;
        }
        let mut j: usize = 0;
        while j < self.results.len()
            invariant
                j <= self.results@.len(),
                any_certification(self.results@.take(j as int)) is None,
                (match first_region_result(self.results@, region@) {
                    Some(k) => first_certification(self.results@[k].release_dates@),
                    None => None,
                }) is None,
            decreases self.results@.len() - j,
        {
            assert(self.results@.take(j + 1).drop_last() =~= self.results@.take(j as int));
            let c = pick_certification(&self.results[j].release_dates);
            if c.is_some() {
                proof {
                    lemma_any_certification_prefix(self.results@, j as int + 1);
                }
                return c;
            }
            j = j + 1;
        }
        assert(self.results@.take(j as int) =~= self.results@);
        None
    }
}

#[derive(Debug, Clone)]
pub struct TmdbContentRating {
    pub iso_3166_1: Option<String>,
    pub rating: Option<String>,
}

impl Default for TmdbContentRating {
    fn default() -> (r: Self)
        ensures
            r.iso_3166_1 is None,
            r.rating is None,
    {
        TmdbContentRating {
            iso_3166_1: None,
            rating: None,
        }
    }
}

#[derive(Debug, Clone)]
pub struct TmdbContentRatings {
    pub results: Vec<TmdbContentRating>,
}

impl Default for TmdbContentRatings {
    fn default() -> (r: Self)
        ensures
            r.results@.len() == 0,
    {
        TmdbContentRatings {
            results: Vec::new(),
        }
    }
}

/// The index of the first rating that is usable and, when `region` is given,
/// for that region.
pub open spec fn first_rating(r: Seq<TmdbContentRating>, region: Option<Seq<char>>) -> Option<int>
    decreases r.len(),
{
    if r.len() == 0 {
        None
    } else {
        match first_rating(r.drop_last(), region) {
            Some(i) => Some(i),
            None => if usable(r.last().rating) && match region {
                Some(g) => is_region(r.last().iso_3166_1, g),
                None => true,
            } {
                Some(r.len() - 1)
            } else {
                None
            },
        }
    }
}

/// The rating for `region`, falling back to the first usable rating.
pub open spec fn rating_for(r: Seq<TmdbContentRating>, region: Seq<char>) -> Option<String> {
    match first_rating(r, Some(region)) {
        Some(i) => r[i].rating,
        None => match first_rating(r, None) {
            Some(i) => r[i].rating,
            None => None,
        },
    }
}

proof fn lemma_first_rating_prefix(r: Seq<TmdbContentRating>, region: Option<Seq<char>>, k: int)
    requires
        0 < k <= r.len(),
        first_rating(r.take(k), region) is Some,
    ensures
        first_rating(r, region) == first_rating(r.take(k), region),
    decreases r.len() - k,
{
    if k < r.len() {
        let t = r.drop_last();
        assert(t.take(k) =~= r.take(k));
        lemma_first_rating_prefix(t, region, k);
    } else {
        assert(r.take(k) =~= r);
    }
}

proof fn lemma_first_rating_bounds(r: Seq<TmdbContentRating>, region: Option<Seq<char>>)
    ensures
        first_rating(r, region) matches Some(i) ==> 0 <= i < r.len(),
    decreases r.len(),
{
    if r.len() > 0 {
        lemma_first_rating_bounds(r.drop_last(), region);
    }
}

fn find_rating(r: &Vec<TmdbContentRating>, region: Option<&str>) -> (out: Option<usize>)
    ensures
        match out {
            Some(i) => first_rating(
                r@,
                match region {
                    Some(g) => Some(g@),
                    None => None,
                },
            ) == Some(i as int),
            None => first_rating(
                r@,
                match region {
                    Some(g) => Some(g@),
                    None => None,
                },
            ) is None,
        },
{
    let ghost g: Option<Seq<char>> = match region {
        Some(g) => Some(g@),
        None => None,
    };
    let mut i: usize = 0;
    while i < r.len()
        invariant
            i <= r@.len(),
            g == match region {
                Some(x) => Some(x@),
                None => None,
            },
            first_rating(r@.take(i as int), g) is None,
        decreases r@.len() - i,
    {
        assert(r@.take(i + 1).drop_last() =~= r@.take(i as int));
        let ok = match &r[i].rating {
            Some(s) => s.as_str().unicode_len() > 0,
            None => false,
        } && match region {
            Some(reg) => region_matches(&r[i].iso_3166_1, reg),
            None => true,
        };
        if ok {
            proof {
                lemma_first_rating_prefix(r@, g, i as int + 1);
            }
            return Some(i);
        }
        i = i + 1;
    }
    assert(r@.take(i as int) =~= r@);
    None
}

impl TmdbContentRatings {
    /// The rating for `region`, falling back to the first non-empty one.
    pub fn rating(&self, region: &str) -> (r: Option<String>)
        ensures
            r == rating_for(self.results@, region@),
    {
        proof {
            lemma_first_rating_bounds(self.results@, Some(region@));
            lemma_first_rating_bounds(self.results@, None);
        }
        match find_rating(&self.results, Some(region)) {
            Some(i) => clone_opt(&self.results[i].rating),
            None => match find_rating(&self.results, None) {
                Some(i) => clone_opt(&self.results[i].rating),
                None => None,
            },
        }
    }
}

#[derive(Debug, Clone)]
pub struct TmdbCollectionRef {
    pub id: i64,
    pub name: String,
    pub poster_path: Option<String>,
    pub backdrop_path: Option<String>,
}

impl Default for TmdbCollectionRef {
    fn default() -> (r: Self)
        ensures
            r.id == 0,
            r.name@.len() == 0,
            r.poster_path is None,
            r.backdrop_path is None,
    {
        TmdbCollectionRef {
            id: 0,
            name: String::new(),
            poster_path: None,
            backdrop_path: None,
        }
    }
}

#[derive(Debug, Clone)]
pub struct TmdbConfiguration {
    pub images: Option<crate::appconfig::TmdbConfigurationImages>,
}

impl Default for TmdbConfiguration {
    fn default() -> (r: Self)
        ensures
            r.images is None,
    {
        TmdbConfiguration {
            images: None,
        }
    }
}

/// TVDB ids arrive as a string or as a number; a number is carried as its
/// decimal text.
#[derive(Debug, Clone)]
pub enum TvdbId {
    Text(String),
    Number(String),
    Other,
}

#[derive(Debug, Clone)]
pub struct TmdbExternalIds {
    pub imdb_id: Option<String>,
    pub tvdb_id: Option<TvdbId>,
    pub wikidata_id: Option<String>,
    pub facebook_id: Option<String>,
    pub instagram_id: Option<String>,
    pub twitter_id: Option<String>,
}

impl Default for TmdbExternalIds {
    fn default() -> (r: Self)
        ensures
            r.imdb_id is None,
            r.tvdb_id is None,
            r.wikidata_id is None,
            r.facebook_id is None,
            r.instagram_id is None,
            r.twitter_id is None,
    {
        TmdbExternalIds {
            imdb_id: None,
            tvdb_id: None,
            wikidata_id: None,
            facebook_id: None,
            instagram_id: None,
            twitter_id: None,
        }
    }
}

/// The TVDB id as text: a non-empty string as given, a number as its digits,
/// anything else as absent.
pub open spec fn tvdb_text(t: Option<TvdbId>) -> Option<String> {
    match t {
        Some(TvdbId::Text(s)) => if s@.len() > 0 { Some(s) } else { None },
        Some(TvdbId::Number(n)) => Some(n),
        _ => None,
    }
}

impl TmdbExternalIds {
    /// No identifiers at all.
    pub fn empty() -> (r: TmdbExternalIds)
        ensures
            r.imdb_id is None,
            r.tvdb_id is None,
            r.wikidata_id is None,
            r.facebook_id is None,
            r.instagram_id is None,
            r.twitter_id is None,
    {
        TmdbExternalIds {
            imdb_id: None,
            tvdb_id: None,
            wikidata_id: None,
            facebook_id: None,
            instagram_id: None,
            twitter_id: None,
        }
    }

    pub fn tvdb_id_string(&self) -> (r: Option<String>)
        ensures
            r == tvdb_text(self.tvdb_id),
    {
        match &self.tvdb_id {
            Some(TvdbId::Text(s)) => {
                if s.as_str().unicode_len() > 0 {
                    Some(s.clone())
                } else {
                    None
                }
            },
            Some(TvdbId::Number(n)) => Some(n.clone()),
            _ => None,
        }
    }
}

/// A cast entry. `popularity` is the bit pattern of an `f32` score.
#[derive(Debug, Clone)]
pub struct TmdbCast {
    pub id: i64,
    pub name: String,
    pub original_name: Option<String>,
    pub adult: Option<bool>,
    pub gender: Option<i64>,
    pub known_for_department: Option<String>,
    pub popularity: Option<u32>,
    pub profile_path: Option<String>,
    pub credit_id: Option<String>,
    pub cast_id: Option<i64>,
    pub character: Option<String>,
    pub order: Option<i64>,
}

impl Default for TmdbCast {
    fn default() -> (r: Self)
        ensures
            r.id == 0,
            r.name@.len() == 0,
            r.original_name is None,
            r.adult is None,
            r.gender is None,
            r.known_for_department is None,
            r.popularity is None,
            r.profile_path is None,
            r.credit_id is None,
            r.cast_id is None,
            r.character is None,
            r.order is None,
    {
        TmdbCast {
            id: 0,
            name: String::new(),
            original_name: None,
            adult: None,
            gender: None,
            known_for_department: None,
            popularity: None,
            profile_path: None,
            credit_id: None,
            cast_id: None,
            character: None,
            order: None,
        }
    }
}

/// A crew entry. `popularity` is the bit pattern of an `f32` score.
#[derive(Debug, Clone)]
pub struct TmdbCrew {
    pub id: i64,
    pub name: String,
    pub original_name: Option<String>,
    pub adult: Option<bool>,
    pub gender: Option<i64>,
    pub known_for_department: Option<String>,
    pub popularity: Option<u32>,
    pub profile_path: Option<String>,
    pub credit_id: Option<String>,
    pub department: Option<String>,
    pub job: Option<String>,
}

impl Default for TmdbCrew {
    fn default() -> (r: Self)
        ensures
            r.id == 0,
            r.name@.len() == 0,
            r.original_name is None,
            r.adult is None,
            r.gender is None,
            r.known_for_department is None,
            r.popularity is None,
            r.profile_path is None,
            r.credit_id is None,
            r.department is None,
            r.job is None,
    {
        TmdbCrew {
            id: 0,
            name: String::new(),
            original_name: None,
            adult: None,
            gender: None,
            known_for_department: None,
            popularity: None,
            profile_path: None,
            credit_id: None,
            department: None,
            job: None,
        }
    }
}

#[derive(Debug, Clone)]
pub struct TmdbCredits {
    pub cast: Vec<TmdbCast>,
    pub crew: Vec<TmdbCrew>,
}

impl Default for TmdbCredits {
    fn default() -> (r: Self)
        ensures
            r.cast@.len() == 0,
            r.crew@.len() == 0,
    {
        TmdbCredits {
            cast: Vec::new(),
            crew: Vec::new(),
        }
    }
}

/// An artwork entry. `aspect_ratio` and `vote_average` are bit patterns of
/// `f32` values.
#[derive(Debug, Clone)]
pub struct TmdbImage {
    pub aspect_ratio: Option<u32>,
    pub height: Option<i32>,
    pub width: Option<i32>,
    pub file_path: Option<String>,
    pub vote_average: Option<u32>,
    pub vote_count: Option<i32>,
}

impl Default for TmdbImage {
    fn default() -> (r: Self)
        ensures
            r.aspect_ratio is None,
            r.height is None,
            r.width is None,
            r.file_path is None,
            r.vote_average is None,
            r.vote_count is None,
    {
        TmdbImage {
            aspect_ratio: None,
            height: None,
            width: None,
            file_path: None,
            vote_average: None,
            vote_count: None,
        }
    }
}

#[derive(Debug, Clone)]
pub struct TmdbImages {
    pub id: Option<i64>,
    pub backdrops: Vec<TmdbImage>,
    pub posters: Vec<TmdbImage>,
    pub logos: Vec<TmdbImage>,
    pub profiles: Vec<TmdbImage>,
}

impl Default for TmdbImages {
    fn default() -> (r: Self)
        ensures
            r.id is None,
            r.backdrops@.len() == 0,
            r.posters@.len() == 0,
            r.logos@.len() == 0,
            r.profiles@.len() == 0,
    {
        TmdbImages {
            id: None,
            backdrops: Vec::new(),
            posters: Vec::new(),
            logos: Vec::new(),
            profiles: Vec::new(),
        }
    }
}

/// A movie or show as it appears in lists (search hits, recommendations,
/// collection parts). `vote_average` is already on the 0..=100 scale;
/// `popularity` is the bit pattern of an `f32` score.
#[derive(Debug, Clone)]
pub struct TmdbMovieBrief {
    pub id: i64,
    pub title: Option<String>,
    pub name: Option<String>,
    pub original_title: Option<String>,
    pub original_language: Option<String>,
    pub overview: Option<String>,
    pub poster_path: Option<String>,
    pub backdrop_path: Option<String>,
    pub release_date: Option<String>,
    pub first_air_date: Option<String>,
    pub vote_average: Option<i64>,
    pub vote_count: Option<i64>,
    pub popularity: Option<u32>,
    pub adult: bool,
    pub video: Option<bool>,
    pub media_type: Option<String>,
    pub genre_ids: Vec<i64>,
}

impl Default for TmdbMovieBrief {
    fn default() -> (r: Self)
        ensures
            r.id == 0,
            r.title is None,
            r.name is None,
            r.original_title is None,
            r.original_language is None,
            r.overview is None,
            r.poster_path is None,
            r.backdrop_path is None,
            r.release_date is None,
            r.first_air_date is None,
            r.vote_average is None,
            r.vote_count is None,
            r.popularity is None,
            !r.adult,
            r.video is None,
            r.media_type is None,
            r.genre_ids@.len() == 0,
    {
        TmdbMovieBrief {
            id: 0,
            title: None,
            name: None,
            original_title: None,
            original_language: None,
            overview: None,
            poster_path: None,
            backdrop_path: None,
            release_date: None,
            first_air_date: None,
            vote_average: None,
            vote_count: None,
            popularity: None,
            adult: false,
            video: None,
            media_type: None,
            genre_ids: Vec::new(),
        }
    }
}

/// Movies carry `title`, shows carry `name`; the title wins, and a hit with
/// neither reads as the empty name.
pub open spec fn brief_name(b: TmdbMovieBrief) -> Seq<char> {
    match b.title {
        Some(t) => t@,
        None => match b.name {
            Some(n) => n@,
            None => Seq::empty(),
        },
    }
}

impl TmdbMovieBrief {
    pub fn display_name(&self) -> (r: String)
        ensures
            r@ == brief_name(*self),
    {
        match &self.title {
            Some(t) => t.clone(),
            None => match &self.name {
                Some(n) => n.clone(),
                None => String::new(),
            },
        }
    }
}

/// A movie. `vote_average` is already on the 0..=100 scale; `popularity` is
/// the bit pattern of an `f32` score.
#[derive(Debug, Clone)]
pub struct TmdbMovie {
    pub id: i64,
    pub title: Option<String>,
    pub original_title: Option<String>,
    pub original_language: Option<String>,
    pub overview: Option<String>,
    pub poster_path: Option<String>,
    pub backdrop_path: Option<String>,
    pub release_date: Option<String>,
    pub runtime: Option<i32>,
    pub tagline: Option<String>,
    pub vote_average: Option<i64>,
    pub vote_count: Option<i64>,
    pub popularity: Option<u32>,
    pub adult: bool,
    pub imdb_id: Option<String>,
    pub genres: Vec<TmdbGenre>,
    pub belongs_to_collection: Option<TmdbCollectionRef>,
    pub credits: Option<TmdbCredits>,
    pub recommendations: Option<TmdbPaged<TmdbMovieBrief>>,
    pub videos: Option<TmdbVideos>,
    pub external_ids: Option<TmdbExternalIds>,
}

impl Default for TmdbMovie {
    fn default() -> (r: Self)
        ensures
            r.id == 0,
            r.title is None,
            r.original_title is None,
            r.original_language is None,
            r.overview is None,
            r.poster_path is None,
            r.backdrop_path is None,
            r.release_date is None,
            r.runtime is None,
            r.tagline is None,
            r.vote_average is None,
            r.vote_count is None,
            r.popularity is None,
            !r.adult,
            r.imdb_id is None,
            r.genres@.len() == 0,
            r.belongs_to_collection is None,
            r.credits is None,
            r.recommendations is None,
            r.videos is None,
            r.external_ids is None,
    {
        TmdbMovie {
            id: 0,
            title: None,
            original_title: None,
            original_language: None,
            overview: None,
            poster_path: None,
            backdrop_path: None,
            release_date: None,
            runtime: None,
            tagline: None,
            vote_average: None,
            vote_count: None,
            popularity: None,
            adult: false,
            imdb_id: None,
            genres: Vec::new(),
            belongs_to_collection: None,
            credits: None,
            recommendations: None,
            videos: None,
            external_ids: None,
        }
    }
}

/// A season as listed on a show. `vote_average` is already on the 0..=100
/// scale.
#[derive(Debug, Clone)]
pub struct TmdbSeasonBrief {
    pub id: Option<i64>,
    pub name: Option<String>,
    pub overview: Option<String>,
    pub poster_path: Option<String>,
    pub season_number: Option<i64>,
    pub episode_count: Option<i64>,
    pub air_date: Option<String>,
    pub vote_average: Option<i64>,
}

impl Default for TmdbSeasonBrief {
    fn default() -> (r: Self)
        ensures
            r.id is None,
            r.name is None,
            r.overview is None,
            r.poster_path is None,
            r.season_number is None,
            r.episode_count is None,
            r.air_date is None,
            r.vote_average is None,
    {
        TmdbSeasonBrief {
            id: None,
            name: None,
            overview: None,
            poster_path: None,
            season_number: None,
            episode_count: None,
            air_date: None,
            vote_average: None,
        }
    }
}

/// A show. `vote_average` is already on the 0..=100 scale; `popularity` is
/// the bit pattern of an `f32` score.
#[derive(Debug, Clone)]
pub struct TmdbTvShow {
    pub id: i64,
    pub name: Option<String>,
    pub original_name: Option<String>,
    pub original_language: Option<String>,
    pub overview: Option<String>,
    pub poster_path: Option<String>,
    pub backdrop_path: Option<String>,
    pub first_air_date: Option<String>,
    pub tagline: Option<String>,
    pub vote_average: Option<i64>,
    pub vote_count: Option<i64>,
    pub popularity: Option<u32>,
    pub adult: bool,
    pub episode_run_time: Vec<i32>,
    pub genres: Vec<TmdbGenre>,
    pub networks: Vec<TmdbNetwork>,
    pub seasons: Vec<TmdbSeasonBrief>,
    pub credits: Option<TmdbCredits>,
    pub recommendations: Option<TmdbPaged<TmdbMovieBrief>>,
    pub videos: Option<TmdbVideos>,
    pub external_ids: Option<TmdbExternalIds>,
}

impl Default for TmdbTvShow {
    fn default() -> (r: Self)
        ensures
            r.id == 0,
            r.name is None,
            r.original_name is None,
            r.original_language is None,
            r.overview is None,
            r.poster_path is None,
            r.backdrop_path is None,
            r.first_air_date is None,
            r.tagline is None,
            r.vote_average is None,
            r.vote_count is None,
            r.popularity is None,
            !r.adult,
            r.episode_run_time@.len() == 0,
            r.genres@.len() == 0,
            r.networks@.len() == 0,
            r.seasons@.len() == 0,
            r.credits is None,
            r.recommendations is None,
            r.videos is None,
            r.external_ids is None,
    {
        TmdbTvShow {
            id: 0,
            name: None,
            original_name: None,
            original_language: None,
            overview: None,
            poster_path: None,
            backdrop_path: None,
            first_air_date: None,
            tagline: None,
            vote_average: None,
            vote_count: None,
            popularity: None,
            adult: false,
            episode_run_time: Vec::new(),
            genres: Vec::new(),
            networks: Vec::new(),
            seasons: Vec::new(),
            credits: None,
            recommendations: None,
            videos: None,
            external_ids: None,
        }
    }
}

/// An episode. `vote_average` keeps TMDB's 0..=10 scale as the bit pattern of
/// an `f32`.
#[derive(Debug, Clone)]
pub struct TmdbEpisode {
    pub id: Option<i64>,
    pub name: Option<String>,
    pub overview: Option<String>,
    pub air_date: Option<String>,
    pub episode_number: i64,
    pub season_number: Option<i64>,
    pub still_path: Option<String>,
    pub vote_average: Option<u32>,
    pub vote_count: Option<i64>,
    pub production_code: Option<String>,
    pub crew: Vec<TmdbCrew>,
}

impl Default for TmdbEpisode {
    fn default() -> (r: Self)
        ensures
            r.id is None,
            r.name is None,
            r.overview is None,
            r.air_date is None,
            r.episode_number == 0,
            r.season_number is None,
            r.still_path is None,
            r.vote_average is None,
            r.vote_count is None,
            r.production_code is None,
            r.crew@.len() == 0,
    {
        TmdbEpisode {
            id: None,
            name: None,
            overview: None,
            air_date: None,
            episode_number: 0,
            season_number: None,
            still_path: None,
            vote_average: None,
            vote_count: None,
            production_code: None,
            crew: Vec::new(),
        }
    }
}

/// A season with its episodes. `vote_average` is already on the 0..=100
/// scale.
#[derive(Debug, Clone)]
pub struct TmdbSeason {
    pub id: Option<i64>,
    pub external_id: Option<String>,
    pub name: Option<String>,
    pub overview: Option<String>,
    pub poster_path: Option<String>,
    pub season_number: Option<i64>,
    pub air_date: Option<String>,
    pub vote_average: Option<i64>,
    pub episodes: Vec<TmdbEpisode>,
}

impl Default for TmdbSeason {
    fn default() -> (r: Self)
        ensures
            r.id is None,
            r.external_id is None,
            r.name is None,
            r.overview is None,
            r.poster_path is None,
            r.season_number is None,
            r.air_date is None,
            r.vote_average is None,
            r.episodes@.len() == 0,
    {
        TmdbSeason {
            id: None,
            external_id: None,
            name: None,
            overview: None,
            poster_path: None,
            season_number: None,
            air_date: None,
            vote_average: None,
            episodes: Vec::new(),
        }
    }
}

#[derive(Debug, Clone)]
pub struct TmdbPersonCredits {
    pub cast: Vec<TmdbCast>,
    pub crew: Vec<TmdbCrew>,
}

impl Default for TmdbPersonCredits {
    fn default() -> (r: Self)
        ensures
            r.cast@.len() == 0,
            r.crew@.len() == 0,
    {
        TmdbPersonCredits {
            cast: Vec::new(),
            crew: Vec::new(),
        }
    }
}

/// A person. `popularity` is the bit pattern of an `f32` score.
#[derive(Debug, Clone)]
pub struct TmdbPerson {
    pub id: i64,
    pub name: Option<String>,
    pub biography: Option<String>,
    pub birthday: Option<String>,
    pub deathday: Option<String>,
    pub gender: Option<i64>,
    pub imdb_id: Option<String>,
    pub known_for_department: Option<String>,
    pub place_of_birth: Option<String>,
    pub popularity: Option<u32>,
    pub profile_path: Option<String>,
    pub adult: bool,
    pub movie_credits: Option<TmdbPersonCredits>,
    pub tv_credits: Option<TmdbPersonCredits>,
}

impl Default for TmdbPerson {
    fn default() -> (r: Self)
        ensures
            r.id == 0,
            r.name is None,
            r.biography is None,
            r.birthday is None,
            r.deathday is None,
            r.gender is None,
            r.imdb_id is None,
            r.known_for_department is None,
            r.place_of_birth is None,
            r.popularity is None,
            r.profile_path is None,
            !r.adult,
            r.movie_credits is None,
            r.tv_credits is None,
    {
        TmdbPerson {
            id: 0,
            name: None,
            biography: None,
            birthday: None,
            deathday: None,
            gender: None,
            imdb_id: None,
            known_for_department: None,
            place_of_birth: None,
            popularity: None,
            profile_path: None,
            adult: false,
            movie_credits: None,
            tv_credits: None,
        }
    }
}

#[derive(Debug, Clone)]
pub struct TmdbCollection {
    pub id: i64,
    pub name: String,
    pub overview: Option<String>,
    pub poster_path: Option<String>,
    pub backdrop_path: Option<String>,
    pub parts: Vec<TmdbMovieBrief>,
}

impl Default for TmdbCollection {
    fn default() -> (r: Self)
        ensures
            r.id == 0,
            r.name@.len() == 0,
            r.overview is None,
            r.poster_path is None,
            r.backdrop_path is None,
            r.parts@.len() == 0,
    {
        TmdbCollection {
            id: 0,
            name: String::new(),
            overview: None,
            poster_path: None,
            backdrop_path: None,
            parts: Vec::new(),
        }
    }
}

} // verus!
