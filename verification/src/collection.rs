//! Movie collections as the store keeps them.
//!
//! A movie payload only names the collection it belongs to, so a collection
//! is first written as a stub without parts. Writing a collection with no
//! parts therefore updates its header and keeps whatever part list an earlier
//! full fetch stored; a non-empty part list replaces the stored one.

use std::collections::HashMap;

use vstd::prelude::*;
use vstd::string::*;

use crate::dto::{brief_name, TmdbCollection, TmdbMovieBrief};
use crate::model::{Collection, CollectionPart, VideoBase, VideoType};
use crate::store::{local_for, LocalState};
use crate::text::{clone_opt, clone_strings};

verus! {

broadcast use vstd::std_specs::hash::group_hash_axioms;

/// One stored part of a collection, in collection order.
#[derive(Debug)]
pub struct PartRow {
    pub movie_id: i64,
    pub display_name: String,
    pub title: Option<String>,
    pub original_title: Option<String>,
    pub original_language: Option<String>,
    pub poster_path: Option<String>,
    pub backdrop_path: Option<String>,
    pub release_date: Option<String>,
    pub overview: Option<String>,
    pub vote_average: Option<i64>,
    pub vote_count: Option<i64>,
    pub popularity: Option<u32>,
    pub adult: bool,
    pub video: Option<bool>,
}

/// A collection as stored: its header and its parts.
#[derive(Debug)]
pub struct StoredCollection {
    pub id: i64,
    pub name: String,
    pub overview: Option<String>,
    pub poster_path: Option<String>,
    pub backdrop_path: Option<String>,
    pub parts: Vec<PartRow>,
}

/// The row a part is stored as.
pub open spec fn is_row_of(row: PartRow, part: CollectionPart) -> bool {
    &&& row.movie_id == part.base.id
    &&& row.display_name == part.base.display_name
    &&& row.title == part.title
    &&& row.original_title == part.original_title
    &&& row.original_language == part.original_language
    &&& row.poster_path == part.base.poster_path
    &&& row.backdrop_path == part.base.backdrop_path
    &&& row.release_date == part.base.release_date
    &&& row.overview == part.base.overview
    &&& row.vote_average == part.base.vote_average
    &&& row.vote_count == part.base.vote_count
    &&& row.popularity == part.base.popularity
    &&& row.adult == part.base.adult
    &&& row.video == part.video
}

/// The rows a part list is stored as, one per part, in order.
pub open spec fn are_rows_of(rows: Seq<PartRow>, parts: Seq<CollectionPart>) -> bool {
    &&& rows.len() == parts.len()
    &&& forall|i: int| 0 <= i < rows.len() ==> is_row_of(#[trigger] rows[i], parts[i])
}

/// What writing `c` leaves stored: the header of `c`, and the parts of `c`
/// unless it has none, in which case the parts stored before (none for a new
/// collection).
pub open spec fn upserted(existing: Option<StoredCollection>, c: Collection, s: StoredCollection) -> bool {
    &&& s.id == c.id
    &&& s.name == c.name
    &&& s.overview == c.overview
    &&& s.poster_path == c.poster_path
    &&& s.backdrop_path == c.backdrop_path
    &&& if c.parts@.len() > 0 {
        are_rows_of(s.parts@, c.parts@)
    } else {
        match existing {
            Some(e) => s.parts@ == e.parts@,
            None => s.parts@.len() == 0,
        }
    }
}

impl Clone for PartRow {
    fn clone(&self) -> (r: Self)
        ensures
            r == *self,
    {
        PartRow {
            movie_id: self.movie_id,
            display_name: self.display_name.clone(),
            title: clone_opt(&self.title),
            original_title: clone_opt(&self.original_title),
            original_language: clone_opt(&self.original_language),
            poster_path: clone_opt(&self.poster_path),
            backdrop_path: clone_opt(&self.backdrop_path),
            release_date: clone_opt(&self.release_date),
            overview: clone_opt(&self.overview),
            vote_average: self.vote_average,
            vote_count: self.vote_count,
            popularity: self.popularity,
            adult: self.adult,
            video: self.video,
        }
    }
}

fn part_row(part: &CollectionPart) -> (r: PartRow)
    ensures
        is_row_of(r, *part),
{
    PartRow {
        movie_id: part.base.id,
        display_name: part.base.display_name.clone(),
        title: clone_opt(&part.title),
        original_title: clone_opt(&part.original_title),
        original_language: clone_opt(&part.original_language),
        poster_path: clone_opt(&part.base.poster_path),
        backdrop_path: clone_opt(&part.base.backdrop_path),
        release_date: clone_opt(&part.base.release_date),
        overview: clone_opt(&part.base.overview),
        vote_average: part.base.vote_average,
        vote_count: part.base.vote_count,
        popularity: part.base.popularity,
        adult: part.base.adult,
        video: part.video,
    }
}

/// Writes `c` over what is stored for it.
pub fn upsert_collection(existing: Option<StoredCollection>, c: &Collection) -> (r: StoredCollection)
    ensures
        upserted(existing, *c, r),
{
    let parts = if c.parts.len() > 0 {
        let mut rows: Vec<PartRow> = Vec::new();
        let mut i: usize = 0;
        while i < c.parts.len()
            invariant
                i <= c.parts@.len(),
                rows@.len() == i,
                forall|j: int| 0 <= j < i ==> is_row_of(#[trigger] rows@[j], c.parts@[j]),
            decreases c.parts@.len() - i,
        {
            rows.push(part_row(&c.parts[i]));
            i = i + 1;
        }
        rows
    } else {
        match existing {
            Some(e) => e.parts,
            None => Vec::new(),
        }
    };
    StoredCollection {
        id: c.id,
        name: c.name.clone(),
        overview: clone_opt(&c.overview),
        poster_path: clone_opt(&c.poster_path),
        backdrop_path: clone_opt(&c.backdrop_path),
        parts,
    }
}

/// A stored part read back as a movie card, decorated with the local state
/// the library holds for it (every flag off and no tags when it holds none).
pub open spec fn is_part_read(out: CollectionPart, row: PartRow, local: Option<LocalState>) -> bool {
    &&& out.base.id == row.movie_id
    &&& out.base.video_type == VideoType::Movie
    &&& out.base.display_name == row.display_name
    &&& out.base.poster_path == row.poster_path
    &&& out.base.backdrop_path == row.backdrop_path
    &&& out.base.release_date == row.release_date
    &&& out.base.overview == row.overview
    &&& out.base.vote_average == row.vote_average
    &&& out.base.vote_count == row.vote_count
    &&& out.base.popularity == row.popularity
    &&& out.base.adult == row.adult
    &&& out.base.season_number is None
    &&& out.base.tv_show_id is None
    &&& out.base.genres@.len() == 0
    &&& out.original_language == row.original_language
    &&& out.original_title == row.original_title
    &&& out.title == row.title
    &&& out.video == row.video
    &&& match local {
        Some(l) => {
            &&& out.base.favorite == l.favorite
            &&& out.base.on_watchlist == l.on_watchlist
            &&& out.base.watched == l.watched
            &&& out.base.tags@ == l.tags@
        },
        None => !out.base.favorite && !out.base.on_watchlist && !out.base.watched
            && out.base.tags@.len() == 0,
    }
}

fn read_part(row: &PartRow, local: Option<&LocalState>) -> (r: CollectionPart)
    ensures
        is_part_read(r, *row, match local {
            Some(l) => Some(*l),
            None => None,
        }),
{
    let mut base = VideoBase::default();
    base.id = row.movie_id;
    base.video_type = VideoType::Movie;
    base.display_name = row.display_name.clone();
    base.poster_path = clone_opt(&row.poster_path);
    base.backdrop_path = clone_opt(&row.backdrop_path);
    base.release_date = clone_opt(&row.release_date);
    base.overview = clone_opt(&row.overview);
    base.vote_average = row.vote_average;
    base.vote_count = row.vote_count;
    base.popularity = row.popularity;
    base.adult = row.adult;
    match local {
        Some(l) => {
            base.favorite = l.favorite;
            base.on_watchlist = l.on_watchlist;
            base.watched = l.watched;
            base.tags = clone_strings(&l.tags);
        },
        None => {},
    }
    CollectionPart {
        base,
        original_language: clone_opt(&row.original_language),
        original_title: clone_opt(&row.original_title),
        title: clone_opt(&row.title),
        video: row.video,
    }
}

/// The ids of the stored parts, in order: the titles whose local state the
/// read needs.
pub fn part_ids(stored: &StoredCollection) -> (r: Vec<i64>)
    ensures
        r@.len() == stored.parts@.len(),
        forall|i: int| 0 <= i < r@.len() ==> r@[i] == #[trigger] stored.parts@[i].movie_id,
{
    let mut out: Vec<i64> = Vec::new();
    let mut i: usize = 0;
    while i < stored.parts.len()
        invariant
            i <= stored.parts@.len(),
            out@.len() == i,
            forall|j: int| 0 <= j < i ==> out@[j] == #[trigger] stored.parts@[j].movie_id,
        decreases stored.parts@.len() - i,
    {
        out.push(stored.parts[i].movie_id);
        i = i + 1;
    }
    out
}

/// Reads a stored collection: its header, flags off, and each part in order
/// as a movie card carrying the library's local state for it.
pub fn read_collection(stored: &StoredCollection, locals: &HashMap<i64, LocalState>) -> (r: Collection)
    ensures
        r.id == stored.id,
        r.name == stored.name,
        r.overview == stored.overview,
        r.poster_path == stored.poster_path,
        r.backdrop_path == stored.backdrop_path,
        !r.favorite && !r.on_watchlist && !r.watched,
        r.parts@.len() == stored.parts@.len(),
        forall|i: int|
            0 <= i < r.parts@.len() ==> is_part_read(
                #[trigger] r.parts@[i],
                stored.parts@[i],
                local_for(locals@, stored.parts@[i].movie_id),
            ),
{
    let mut parts: Vec<CollectionPart> = Vec::new();
    let mut i: usize = 0;
    while i < stored.parts.len()
        invariant
            i <= stored.parts@.len(),
            parts@.len() == i,
            forall|j: int|
                0 <= j < i ==> is_part_read(
                    #[trigger] parts@[j],
                    stored.parts@[j],
                    local_for(locals@, stored.parts@[j].movie_id),
                ),
        decreases stored.parts@.len() - i,
    {
        let local = locals.get(&stored.parts[i].movie_id);
        parts.push(read_part(&stored.parts[i], local));
        i = i + 1;
    }
    Collection {
        id: stored.id,
        poster_path: clone_opt(&stored.poster_path),
        backdrop_path: clone_opt(&stored.backdrop_path),
        favorite: false,
        on_watchlist: false,
        watched: false,
        name: stored.name.clone(),
        overview: clone_opt(&stored.overview),
        parts,
    }
}

/// A part of a fetched collection: a movie card built from the listed hit.
pub open spec fn is_part_of_brief(out: CollectionPart, b: TmdbMovieBrief) -> bool {
    &&& out.base.id == b.id
    &&& out.base.video_type == VideoType::Movie
    &&& out.base.display_name@ == brief_name(b)
    &&& out.base.poster_path == b.poster_path
    &&& out.base.backdrop_path == b.backdrop_path
    &&& out.base.release_date == b.release_date
    &&& out.base.overview == b.overview
    &&& out.base.vote_average == b.vote_average
    &&& out.base.vote_count == b.vote_count
    &&& out.base.popularity == b.popularity
    &&& out.base.adult == b.adult
    &&& !out.base.favorite && !out.base.on_watchlist && !out.base.watched
    &&& out.base.tags@.len() == 0
    &&& out.original_language == b.original_language
    &&& out.original_title == b.original_title
    &&& out.title == b.title
    &&& out.video == b.video
}

fn part_of_brief(b: &TmdbMovieBrief) -> (r: CollectionPart)
    ensures
        is_part_of_brief(r, *b),
{
    let mut base = VideoBase::default();
    base.id = b.id;
    base.video_type = VideoType::Movie;
    base.display_name = b.display_name();
    base.poster_path = clone_opt(&b.poster_path);
    base.backdrop_path = clone_opt(&b.backdrop_path);
    base.release_date = clone_opt(&b.release_date);
    base.overview = clone_opt(&b.overview);
    base.vote_average = b.vote_average;
    base.vote_count = b.vote_count;
    base.popularity = b.popularity;
    base.adult = b.adult;
    CollectionPart {
        base,
        original_language: clone_opt(&b.original_language),
        original_title: clone_opt(&b.original_title),
        title: clone_opt(&b.title),
        video: b.video,
    }
}

/// A fetched collection as a response: its header, flags off, and its parts
/// in TMDB's order.
pub fn map_collection(dto: &TmdbCollection) -> (r: Collection)
    ensures
        r.id == dto.id,
        r.name == dto.name,
        r.overview == dto.overview,
        r.poster_path == dto.poster_path,
        r.backdrop_path == dto.backdrop_path,
        !r.favorite && !r.on_watchlist && !r.watched,
        r.parts@.len() == dto.parts@.len(),
        forall|i: int| 0 <= i < r.parts@.len() ==> is_part_of_brief(#[trigger] r.parts@[i], dto.parts@[i]),
{
    let mut parts: Vec<CollectionPart> = Vec::new();
    let mut i: usize = 0;
    while i < dto.parts.len()
        invariant
            i <= dto.parts@.len(),
            parts@.len() == i,
            forall|j: int| 0 <= j < i ==> is_part_of_brief(#[trigger] parts@[j], dto.parts@[j]),
        decreases dto.parts@.len() - i,
    {
        parts.push(part_of_brief(&dto.parts[i]));
        i = i + 1;
    }
    Collection {
        id: dto.id,
        poster_path: clone_opt(&dto.poster_path),
        backdrop_path: clone_opt(&dto.backdrop_path),
        favorite: false,
        on_watchlist: false,
        watched: false,
        name: dto.name.clone(),
        overview: clone_opt(&dto.overview),
        parts,
    }
}

/// A collection stub as written from a movie's reference to it: the header
/// the reference carries, no overview and no parts.
pub fn collection_stub(id: i64, name: &String, poster_path: &Option<String>, backdrop_path: &Option<String>) -> (r:
    Collection)
    ensures
        r.id == id,
        r.name == *name,
        r.poster_path == *poster_path,
        r.backdrop_path == *backdrop_path,
        r.overview is None,
        !r.favorite && !r.on_watchlist && !r.watched,
        r.parts@.len() == 0,
{
    Collection {
        id,
        poster_path: clone_opt(poster_path),
        backdrop_path: clone_opt(backdrop_path),
        favorite: false,
        on_watchlist: false,
        watched: false,
        name: name.clone(),
        overview: None,
        parts: Vec::new(),
    }
}

/// A cached collection without parts is only a stub, so it is fetched in full
/// unless it is cached with parts and no refresh was asked for.
pub fn collection_needs_fetch(refresh: bool, cached: &Option<Collection>) -> (r: bool)
    ensures
        r == (refresh || match cached {
            Some(c) => c.parts@.len() == 0,
            None => true,
        }),
{
    refresh || match cached {
        Some(c) => c.parts.len() == 0,
        None => true,
    }
}

} // verus!
