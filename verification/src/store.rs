//! Records as the store keeps them, and the rules that turn stored rows into
//! responses.

use std::collections::HashMap;

use vstd::prelude::*;
use vstd::string::*;

use crate::model::{
    Recommendation, RecommendationBase, Recommendations, TvShowRecommendation,
    TvShowRecommendations, VideoType,
};
use crate::text::{clone_opt, clone_strings};
use crate::sorting::{insert_ordered, insert_tag, lemma_ordered_push, ordered, tag_order};

verus! {

broadcast use vstd::std_specs::hash::group_hash_axioms;

/// Which flavour of images a set belongs to.
#[derive(Debug, Clone, Copy, PartialEq, Eq, Structural)]
pub enum ImageOwner {
    Movie,
    TvShow,
    /// Season posters, addressed by show id and season number.
    TvSeason { season_number: i64 },
    Person,
}

/// The owner type stored in `image.owner_type`.
pub open spec fn image_owner_name(o: ImageOwner) -> Seq<char> {
    match o {
        ImageOwner::Movie => "movie"@,
        ImageOwner::TvShow => "tvshow"@,
        ImageOwner::TvSeason { .. } => "tvseason"@,
        ImageOwner::Person => "person"@,
    }
}

/// The season number of a season owner, `-1` for every other owner.
pub open spec fn season_key_of(o: ImageOwner) -> i64 {
    match o {
        ImageOwner::TvSeason { season_number } => season_number,
        _ => -1i64,
    }
}

impl ImageOwner {
    pub fn type_str(&self) -> (r: &'static str)
        ensures
            r@ == image_owner_name(*self),
    {
        match self {
            ImageOwner::Movie => "movie",
            ImageOwner::TvShow => "tvshow",
            ImageOwner::TvSeason { .. } => "tvseason",
            ImageOwner::Person => "person",
        }
    }

    /// Season number, or `-1` for owners where it does not apply.
    pub fn season_key(&self) -> (r: i64)
        ensures
            r == season_key_of(*self),
    {
        match self {
            ImageOwner::TvSeason { season_number } => *season_number,
            _ => -1,
        }
    }
}

/// The image owner a title's artwork is kept under: shows and seasons under
/// their own kind, every other title as a movie.
pub open spec fn image_owner_type_spec(t: VideoType) -> Seq<char> {
    match t {
        VideoType::Tvshow => "tvshow"@,
        VideoType::Tvseason => "tvseason"@,
        _ => "movie"@,
    }
}

pub fn image_owner_type(t: VideoType) -> (r: &'static str)
    ensures
        r@ == image_owner_type_spec(t),
{
    proof {
        reveal_strlit("tvshow");
        reveal_strlit("tvseason");
        reveal_strlit("movie");
    }
    match t {
        VideoType::Tvshow => "tvshow",
        VideoType::Tvseason => "tvseason",
        _ => "movie",
    }
}

/// Fields a PATCH may override. `None` leaves the stored value alone.
#[derive(Debug, Clone)]
pub struct VideoOverrides {
    pub poster_path: Option<String>,
    pub backdrop_path: Option<String>,
    pub overview: Option<String>,
    pub imdb_id: Option<String>,
    pub wer_streamt_es_id: Option<i32>,
}

impl Default for VideoOverrides {
    /// No override at all.
    fn default() -> (r: Self)
        ensures
            r.poster_path is None && r.backdrop_path is None && r.overview is None
                && r.imdb_id is None && r.wer_streamt_es_id is None,
    {
        VideoOverrides {
            poster_path: None,
            backdrop_path: None,
            overview: None,
            imdb_id: None,
            wer_streamt_es_id: None,
        }
    }
}

impl VideoOverrides {
    pub fn is_empty(&self) -> (r: bool)
        ensures
            r == (self.poster_path is None && self.backdrop_path is None && self.overview is None
                && self.imdb_id is None && self.wer_streamt_es_id is None),
    {
        self.poster_path.is_none() && self.backdrop_path.is_none() && self.overview.is_none()
            && self.imdb_id.is_none() && self.wer_streamt_es_id.is_none()
    }
}

/// User-owned state for one title.
#[derive(Debug, Clone)]
pub struct LocalState {
    pub favorite: bool,
    pub on_watchlist: bool,
    pub watched: bool,
    pub tags: Vec<String>,
}

impl Default for LocalState {
    /// The state of a title the user has done nothing with.
    fn default() -> (r: Self)
        ensures
            !r.favorite && !r.on_watchlist && !r.watched && r.tags@.len() == 0,
    {
        LocalState { favorite: false, on_watchlist: false, watched: false, tags: Vec::new() }
    }
}

/// A recommended title as stored, before local library state is added.
#[derive(Debug)]
pub struct StoredRecommendation {
    pub id: i64,
    pub display_name: String,
    pub poster_path: Option<String>,
    pub backdrop_path: Option<String>,
    pub vote_average: Option<i64>,
    pub adult: Option<bool>,
    pub rec_type: Option<String>,
    pub release_date: Option<String>,
    pub first_air_date: Option<String>,
    pub age_rating: Option<String>,
}

impl Default for StoredRecommendation {
    fn default() -> (r: Self)
        ensures
            r.id == 0,
            r.display_name@.len() == 0,
            r.poster_path is None,
            r.backdrop_path is None,
            r.vote_average is None,
            r.adult is None,
            r.rec_type is None,
            r.release_date is None,
            r.first_air_date is None,
            r.age_rating is None,
    {
        StoredRecommendation {
            id: 0,
            display_name: String::new(),
            poster_path: None,
            backdrop_path: None,
            vote_average: None,
            adult: None,
            rec_type: None,
            release_date: None,
            first_air_date: None,
            age_rating: None,
        }
    }
}

impl Clone for StoredRecommendation {
    fn clone(&self) -> (r: Self)
        ensures
            r == *self,
    {
        StoredRecommendation {
            id: self.id,
            display_name: self.display_name.clone(),
            poster_path: clone_opt(&self.poster_path),
            backdrop_path: clone_opt(&self.backdrop_path),
            vote_average: self.vote_average,
            adult: self.adult,
            rec_type: clone_opt(&self.rec_type),
            release_date: clone_opt(&self.release_date),
            first_air_date: clone_opt(&self.first_air_date),
            age_rating: clone_opt(&self.age_rating),
        }
    }
}

/// Recommendation list plus its paging metadata.
#[derive(Debug, Clone)]
pub struct RecommendationSet {
    pub page: Option<i64>,
    pub total_pages: Option<i64>,
    pub total_results: Option<i64>,
    pub items: Vec<StoredRecommendation>,
}

impl Default for RecommendationSet {
    fn default() -> (r: Self)
        ensures
            r.page is None,
            r.total_pages is None,
            r.total_results is None,
            r.items@.len() == 0,
    {
        RecommendationSet {
            page: None,
            total_pages: None,
            total_results: None,
            items: Vec::new(),
        }
    }
}

/// A poster card built from a stored recommendation and, when the title is in
/// the library, its local state; without local state every flag is off and
/// there are no tags.
pub open spec fn is_card_of(
    out: RecommendationBase,
    rec: StoredRecommendation,
    local: Option<LocalState>,
) -> bool {
    &&& out.id == rec.id
    &&& out.poster_path == rec.poster_path
    &&& out.backdrop_path == rec.backdrop_path
    &&& out.display_name == rec.display_name
    &&& out.vote_average == rec.vote_average
    &&& out.adult == rec.adult
    &&& out.rec_type == rec.rec_type
    &&& out.emby_id is None
    &&& out.emby_server_id is None
    &&& match local {
        Some(l) => {
            &&& out.favorite == l.favorite
            &&& out.on_watchlist == l.on_watchlist
            &&& out.watched == l.watched
            &&& out.tags@ == l.tags@
        },
        None => !out.favorite && !out.on_watchlist && !out.watched && out.tags@.len() == 0,
    }
}

pub open spec fn is_movie_recommendation_of(
    out: Recommendation,
    rec: StoredRecommendation,
    local: Option<LocalState>,
) -> bool {
    &&& is_card_of(out.base, rec, local)
    &&& out.release_date == rec.release_date
    &&& out.age_rating == rec.age_rating
}

pub open spec fn is_tv_recommendation_of(
    out: TvShowRecommendation,
    rec: StoredRecommendation,
    local: Option<LocalState>,
) -> bool {
    &&& is_card_of(out.base, rec, local)
    &&& out.first_air_date == rec.first_air_date
}

/// An optional borrow as an optional value.
pub open spec fn deref_opt(local: Option<&LocalState>) -> Option<LocalState> {
    match local {
        Some(l) => Some(*l),
        None => None,
    }
}

impl StoredRecommendation {
    /// Local flags and tags are resolved against the library, so a
    /// recommendation already in the library shows the right badges.
    fn base(&self, local: Option<&LocalState>) -> (r: RecommendationBase)
        ensures
            is_card_of(r, *self, deref_opt(local)),
    {
        let (favorite, on_watchlist, watched, tags) = match local {
            Some(l) => (l.favorite, l.on_watchlist, l.watched, clone_strings(&l.tags)),
            None => (false, false, false, Vec::new()),
        };
        RecommendationBase {
            id: self.id,
            poster_path: clone_opt(&self.poster_path),
            backdrop_path: clone_opt(&self.backdrop_path),
            favorite,
            on_watchlist,
            watched,
            display_name: self.display_name.clone(),
            vote_average: self.vote_average,
            adult: self.adult,
            rec_type: clone_opt(&self.rec_type),
            emby_id: None,
            emby_server_id: None,
            tags,
        }
    }

    pub fn into_movie_recommendation(self, local: Option<&LocalState>) -> (r: Recommendation)
        ensures
            is_movie_recommendation_of(r, self, deref_opt(local)),
    {
        Recommendation {
            base: self.base(local),
            release_date: self.release_date,
            age_rating: self.age_rating,
        }
    }

    pub fn into_tv_recommendation(self, local: Option<&LocalState>) -> (r: TvShowRecommendation)
        ensures
            is_tv_recommendation_of(r, self, deref_opt(local)),
    {
        TvShowRecommendation { base: self.base(local), first_air_date: self.first_air_date }
    }
}

/// The local state a map holds for `id`, if any.
pub open spec fn local_for(locals: Map<i64, LocalState>, id: i64) -> Option<LocalState> {
    if locals.contains_key(id) {
        Some(locals[id])
    } else {
        None
    }
}

/// Builds the recommendations of a movie: every stored item, in stored order,
/// decorated with the local state the library holds for it.
pub fn build_movie_recommendations(
    movie_id: i64,
    set: RecommendationSet,
    locals: &HashMap<i64, LocalState>,
) -> (r: Recommendations)
    ensures
        r.movie_id == movie_id,
        r.page == set.page,
        r.total_pages == set.total_pages,
        r.total_results == set.total_results,
        r.movie_recommendations@.len() == set.items@.len(),
        forall|i: int|
            0 <= i < set.items@.len() ==> is_movie_recommendation_of(
                #[trigger] r.movie_recommendations@[i],
                set.items@[i],
                local_for(locals@, set.items@[i].id),
            ),
{
    let mut out: Vec<Recommendation> = Vec::new();
    let mut i: usize = 0;
    while i < set.items.len()
        invariant
            i <= set.items@.len(),
            out@.len() == i,
            forall|j: int|
                0 <= j < i ==> is_movie_recommendation_of(
                    #[trigger] out@[j],
                    set.items@[j],
                    local_for(locals@, set.items@[j].id),
                ),
        decreases set.items@.len() - i,
    {
        let item = set.items[i].clone();
        let local = locals.get(&item.id);
        proof {
            assert(deref_opt(local) == local_for(locals@, set.items@[i as int].id));
        }
        out.push(item.into_movie_recommendation(local));
        i = i + 1;
    }
    Recommendations {
        movie_id,
        page: set.page,
        total_pages: set.total_pages,
        total_results: set.total_results,
        movie_recommendations: out,
    }
}

/// Builds the recommendations of a TV show, as for a movie.
pub fn build_tv_recommendations(
    tv_show_id: i64,
    set: RecommendationSet,
    locals: &HashMap<i64, LocalState>,
) -> (r: TvShowRecommendations)
    ensures
        r.movie_id == tv_show_id,
        r.page == set.page,
        r.total_pages == set.total_pages,
        r.total_results == set.total_results,
        r.tv_show_recommendations@.len() == set.items@.len(),
        forall|i: int|
            0 <= i < set.items@.len() ==> is_tv_recommendation_of(
                #[trigger] r.tv_show_recommendations@[i],
                set.items@[i],
                local_for(locals@, set.items@[i].id),
            ),
{
    let mut out: Vec<TvShowRecommendation> = Vec::new();
    let mut i: usize = 0;
    while i < set.items.len()
        invariant
            i <= set.items@.len(),
            out@.len() == i,
            forall|j: int|
                0 <= j < i ==> is_tv_recommendation_of(
                    #[trigger] out@[j],
                    set.items@[j],
                    local_for(locals@, set.items@[j].id),
                ),
        decreases set.items@.len() - i,
    {
        let item = set.items[i].clone();
        let local = locals.get(&item.id);
        proof {
            assert(deref_opt(local) == local_for(locals@, set.items@[i as int].id));
        }
        out.push(item.into_tv_recommendation(local));
        i = i + 1;
    }
    TvShowRecommendations {
        movie_id: tv_show_id,
        page: set.page,
        total_pages: set.total_pages,
        total_results: set.total_results,
        tv_show_recommendations: out,
    }
}

/// The video type a stored type name denotes; anything unrecognised reads as a
/// movie.
pub open spec fn video_type_of(s: Seq<char>) -> VideoType {
    if s == "tvshow"@ {
        VideoType::Tvshow
    } else if s == "tvseason"@ {
        VideoType::Tvseason
    } else if s == "video"@ {
        VideoType::Video
    } else {
        VideoType::Movie
    }
}

pub fn parse_video_type(s: &str) -> (r: VideoType)
    ensures
        r == video_type_of(s@),
{
    if crate::text::str_eq(s, "tvshow") {
        VideoType::Tvshow
    } else if crate::text::str_eq(s, "tvseason") {
        VideoType::Tvseason
    } else if crate::text::str_eq(s, "video") {
        VideoType::Video
    } else {
        VideoType::Movie
    }
}

/// `?,?,...,?` with `n` bindings, for an SQL `IN` clause.
pub open spec fn placeholders_spec(n: nat) -> Seq<char>
    decreases n,
{
    if n == 0 {
        Seq::empty()
    } else if n == 1 {
        seq!['?']
    } else {
        placeholders_spec((n - 1) as nat) + seq![',', '?']
    }
}

/// Largest number of ids bound into a single `IN` clause; id sets are walked in
/// chunks of this size.
pub const BIND_CHUNK: usize = 500;

pub fn placeholders(n: usize) -> (r: String)
    ensures
        r@ == placeholders_spec(n as nat),
{
    let mut out = String::new();
    let mut i: usize = 0;
    while i < n
        invariant
            i <= n,
            out@ == placeholders_spec(i as nat),
        decreases n - i,
    {
        if i == 0 {
            crate::text::push_char(&mut out, '?');
            assert(out@ =~= seq!['?']);
        } else {
            crate::text::push_char(&mut out, ',');
            crate::text::push_char(&mut out, '?');
            assert(out@ =~= placeholders_spec(i as nat) + seq![',', '?']);
        }
        i = i + 1;
    }
    out
}

/// A person record as stored, before local library cross-references are added.
#[derive(Debug, Clone)]
pub struct PersonRecord {
    pub id: i64,
    pub name: Option<String>,
    pub profile_path: Option<String>,
    pub place_of_birth: Option<String>,
    pub biography: Option<String>,
    pub birthday: Option<String>,
    pub deathday: Option<String>,
    pub gender: Option<i64>,
    pub imdb_id: Option<String>,
    pub adult: Option<bool>,
    /// `None` while the row is only a stub created from a credit list.
    pub fetched_at: Option<String>,
}

impl Default for PersonRecord {
    fn default() -> (r: Self)
        ensures
            r.id == 0,
            r.name is None,
            r.profile_path is None,
            r.place_of_birth is None,
            r.biography is None,
            r.birthday is None,
            r.deathday is None,
            r.gender is None,
            r.imdb_id is None,
            r.adult is None,
            r.fetched_at is None,
    {
        PersonRecord {
            id: 0,
            name: None,
            profile_path: None,
            place_of_birth: None,
            biography: None,
            birthday: None,
            deathday: None,
            gender: None,
            imdb_id: None,
            adult: None,
            fetched_at: None,
        }
    }
}

#[derive(Clone, Copy)]
pub struct PersonCreditLimits {
    pub movie_cast: i64,
    pub tv_cast: i64,
    pub directed: i64,
}

#[derive(Debug, Clone)]
pub struct PersonCredits {
    pub movie_cast: Vec<crate::model::CastReference>,
    pub directed_movies: Vec<crate::model::CastReference>,
    pub tv_cast: Vec<crate::model::CastReference>,
}

impl Default for PersonCredits {
    fn default() -> (r: Self)
        ensures
            r.movie_cast@.len() == 0,
            r.directed_movies@.len() == 0,
            r.tv_cast@.len() == 0,
    {
        PersonCredits {
            movie_cast: Vec::new(),
            directed_movies: Vec::new(),
            tv_cast: Vec::new(),
        }
    }
}

/// A title's flags as stored.
#[derive(Debug)]
pub struct FlagRow {
    pub video_id: i64,
    pub favorite: bool,
    pub on_watchlist: bool,
    pub watched: bool,
}

/// A tag stored on a title.
#[derive(Debug)]
pub struct IdTag {
    pub video_id: i64,
    pub tag: String,
}

/// The flags stored for `id`: the last row for it, if any.
pub open spec fn flags_for(rows: Seq<FlagRow>, id: i64) -> Option<FlagRow>
    decreases rows.len(),
{
    if rows.len() == 0 {
        None
    } else if rows.last().video_id == id {
        Some(rows.last())
    } else {
        flags_for(rows.drop_last(), id)
    }
}

/// The tags stored for `id`, in row order.
pub open spec fn tags_of(rows: Seq<IdTag>, id: i64) -> Seq<String>
    decreases rows.len(),
{
    if rows.len() == 0 {
        Seq::empty()
    } else if rows.last().video_id == id {
        tags_of(rows.drop_last(), id).push(rows.last().tag)
    } else {
        tags_of(rows.drop_last(), id)
    }
}

/// The local state read for `id`: its stored flags (off when it has no flag
/// row) and its tags.
pub open spec fn is_local_state_of(l: LocalState, flags: Seq<FlagRow>, tags: Seq<IdTag>, id: i64) -> bool {
    &&& l.favorite == (match flags_for(flags, id) {
        Some(f) => f.favorite,
        None => false,
    })
    &&& l.on_watchlist == (match flags_for(flags, id) {
        Some(f) => f.on_watchlist,
        None => false,
    })
    &&& l.watched == (match flags_for(flags, id) {
        Some(f) => f.watched,
        None => false,
    })
    &&& l.tags@ == ordered(tags_of(tags, id), tag_order())
}

fn copy_local(l: &LocalState) -> (r: LocalState)
    ensures
        r.favorite == l.favorite,
        r.on_watchlist == l.on_watchlist,
        r.watched == l.watched,
        r.tags@ == l.tags@,
{
    LocalState {
        favorite: l.favorite,
        on_watchlist: l.on_watchlist,
        watched: l.watched,
        tags: clone_strings(&l.tags),
    }
}

/// The local state of a batch of titles, from their flag rows and their tag
/// rows: an entry for every title that has either, with its flags and its
/// tags in row order.
pub fn local_states(flags: &Vec<FlagRow>, tags: &Vec<IdTag>) -> (r: HashMap<i64, LocalState>)
    ensures
        forall|id: i64|
            #[trigger] r@.contains_key(id) <==> (flags_for(flags@, id) is Some || tags_of(tags@, id).len() > 0),
        forall|id: i64| #[trigger] r@.contains_key(id) ==> is_local_state_of(r@[id], flags@, tags@, id),
{
    let mut out: HashMap<i64, LocalState> = HashMap::new();
    let mut i: usize = 0;
    while i < flags.len()
        invariant
            i <= flags@.len(),
            forall|id: i64| #[trigger] out@.contains_key(id) <==> flags_for(flags@.take(i as int), id) is Some,
            forall|id: i64|
                #[trigger] out@.contains_key(id) ==> is_local_state_of(
                    out@[id],
                    flags@.take(i as int),
                    Seq::<IdTag>::empty(),
                    id,
                ),
        decreases flags@.len() - i,
    {
        let f = &flags[i];
        proof {
            assert(flags@.take(i + 1).drop_last() =~= flags@.take(i as int));
            assert(flags@.take(i + 1).last() == flags@[i as int]);
        }
        out.insert(
            f.video_id,
            LocalState {
                favorite: f.favorite,
                on_watchlist: f.on_watchlist,
                watched: f.watched,
                tags: Vec::new(),
            },
        );
        i = i + 1;
    }
    proof {
        assert(flags@.take(flags@.len() as int) =~= flags@);
    }
    let mut k: usize = 0;
    while k < tags.len()
        invariant
            k <= tags@.len(),
            forall|id: i64|
                #[trigger] out@.contains_key(id) <==> (flags_for(flags@, id) is Some || tags_of(
                    tags@.take(k as int),
                    id,
                ).len() > 0),
            forall|id: i64|
                #[trigger] out@.contains_key(id) ==> is_local_state_of(
                    out@[id],
                    flags@,
                    tags@.take(k as int),
                    id,
                ),
        decreases tags@.len() - k,
    {
        let t = &tags[k];
        proof {
            assert(tags@.take(k + 1).drop_last() =~= tags@.take(k as int));
            assert(tags@.take(k + 1).last() == tags@[k as int]);
        }
        let entry = match out.get(&t.video_id) {
            Some(l) => {
                let mut l2 = copy_local(l);
                insert_tag(&mut l2.tags, t.tag.clone());
                l2
            },
            None => {
                let mut tv: Vec<String> = Vec::new();
                insert_tag(&mut tv, t.tag.clone());
                LocalState { favorite: false, on_watchlist: false, watched: false, tags: tv }
            },
        };
        let ghost before = out@;
        out.insert(t.video_id, entry);
        proof {
            assert forall|id: i64| #[trigger] out@.contains_key(id) implies is_local_state_of(
                out@[id],
                flags@,
                tags@.take(k + 1),
                id,
            ) by {
                assert(tags_of(tags@.take(k + 1), id) == (if tags@[k as int].video_id == id {
                    tags_of(tags@.take(k as int), id).push(tags@[k as int].tag)
                } else {
                    tags_of(tags@.take(k as int), id)
                }));
                if id != t.video_id {
                    assert(out@[id] == before[id]);
                } else {
                    assert(out@[id] == entry);
                    lemma_ordered_push(tags_of(tags@.take(k as int), id), t.tag, tag_order());
                    if before.contains_key(id) {
                        assert(is_local_state_of(before[id], flags@, tags@.take(k as int), id));
                        assert(entry.tags@ == insert_ordered(before[id].tags@, t.tag, tag_order()));
                    } else {
                        assert(flags_for(flags@, id) is None);
                        assert(tags_of(tags@.take(k as int), id) =~= Seq::<String>::empty());
                        assert(ordered(Seq::<String>::empty(), tag_order()) =~= Seq::<String>::empty());
                        assert(entry.tags@ == ordered(tags_of(tags@.take(k + 1), id), tag_order()));
                    }
                }
            }
            assert forall|id: i64| #[trigger] out@.contains_key(id) <==> (flags_for(flags@, id) is Some || tags_of(
                tags@.take(k + 1),
                id,
            ).len() > 0) by {
                assert(tags_of(tags@.take(k + 1), id) == (if tags@[k as int].video_id == id {
                    tags_of(tags@.take(k as int), id).push(tags@[k as int].tag)
                } else {
                    tags_of(tags@.take(k as int), id)
                }));
            }
        }
        k = k + 1;
    }
    proof {
        assert(tags@.take(tags@.len() as int) =~= tags@);
    }
    out
}

} // verus!
