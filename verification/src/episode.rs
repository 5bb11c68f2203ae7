//! Stored episodes: refreshing an episode's metadata keeps the user's flags,
//! and the per-episode tags and crew are attached when episodes are read.

use vstd::prelude::*;

use crate::model::{Crew, Flag, TvEpisode};
use crate::text::clone_opt;
use crate::sorting::{insert_tag, lemma_ordered_push, ordered, tag_order};

verus! {

/// One row of the `tv_episode` table, keyed by show, season and episode number.
#[derive(Debug)]
pub struct EpisodeRecord {
    pub tv_show_id: i64,
    pub season_number: i64,
    pub episode_number: i64,
    pub episode_id: Option<i64>,
    pub name: Option<String>,
    pub overview: Option<String>,
    pub air_date: Option<String>,
    pub still_path: Option<String>,
    pub vote_average: Option<u32>,
    pub vote_count: Option<i64>,
    pub production_code: Option<String>,
    pub favorite: bool,
    pub on_watchlist: bool,
    pub watched: bool,
}

/// The row an episode write leaves behind: the fetched metadata, with the
/// user's flags carried over from the existing row (none on a new row).
pub open spec fn merged_episode(
    existing: Option<EpisodeRecord>,
    tv_show_id: i64,
    season_number: i64,
    e: TvEpisode,
) -> EpisodeRecord {
    EpisodeRecord {
        tv_show_id,
        season_number,
        episode_number: e.episode_number,
        episode_id: e.id,
        name: e.name,
        overview: e.overview,
        air_date: e.air_date,
        still_path: e.still_path,
        vote_average: e.vote_average,
        vote_count: e.vote_count,
        production_code: e.production_code,
        favorite: match existing {
            Some(o) => o.favorite,
            None => false,
        },
        on_watchlist: match existing {
            Some(o) => o.on_watchlist,
            None => false,
        },
        watched: match existing {
            Some(o) => o.watched,
            None => false,
        },
    }
}

/// Writes freshly fetched episode metadata over the stored row for the same
/// episode (or starts a row); watched, favourite and watch-list flags survive.
pub fn merge_episode(
    existing: Option<&EpisodeRecord>,
    tv_show_id: i64,
    season_number: i64,
    e: &TvEpisode,
) -> (r: EpisodeRecord)
    requires
        existing matches Some(o) ==> o.tv_show_id == tv_show_id && o.season_number == season_number
            && o.episode_number == e.episode_number,
    ensures
        r == merged_episode(
            match existing {
                Some(o) => Some(*o),
                None => None,
            },
            tv_show_id,
            season_number,
            *e,
        ),
{
    let (favorite, on_watchlist, watched) = match existing {
        Some(o) => (o.favorite, o.on_watchlist, o.watched),
        None => (false, false, false),
    };
    EpisodeRecord {
        tv_show_id,
        season_number,
        episode_number: e.episode_number,
        episode_id: e.id,
        name: clone_opt(&e.name),
        overview: clone_opt(&e.overview),
        air_date: clone_opt(&e.air_date),
        still_path: clone_opt(&e.still_path),
        vote_average: e.vote_average,
        vote_count: e.vote_count,
        production_code: clone_opt(&e.production_code),
        favorite,
        on_watchlist,
        watched,
    }
}

impl EpisodeRecord {
    pub fn set_flag(&mut self, flag: Flag, value: bool)
        ensures
            flag == Flag::Favorite ==> final(self).favorite == value,
            flag != Flag::Favorite ==> final(self).favorite == old(self).favorite,
            flag == Flag::Watched ==> final(self).watched == value,
            flag != Flag::Watched ==> final(self).watched == old(self).watched,
            flag == Flag::Watchlist ==> final(self).on_watchlist == value,
            flag != Flag::Watchlist ==> final(self).on_watchlist == old(self).on_watchlist,
            final(self).tv_show_id == old(self).tv_show_id,
            final(self).season_number == old(self).season_number,
            final(self).episode_number == old(self).episode_number,
            final(self).episode_id == old(self).episode_id,
            final(self).name == old(self).name,
            final(self).overview == old(self).overview,
            final(self).air_date == old(self).air_date,
            final(self).still_path == old(self).still_path,
            final(self).vote_average == old(self).vote_average,
            final(self).vote_count == old(self).vote_count,
            final(self).production_code == old(self).production_code,
    {
        match flag {
            Flag::Favorite => self.favorite = value,
            Flag::Watched => self.watched = value,
            Flag::Watchlist => self.on_watchlist = value,
        }
    }
}

/// A tag on one episode of a season.
#[derive(Debug)]
pub struct EpisodeTagRow {
    pub episode_number: i64,
    pub tag: String,
}

/// A crew member of one episode of a season.
#[derive(Debug)]
pub struct EpisodeCrewRow {
    pub episode_number: i64,
    pub crew: Crew,
}

pub open spec fn episode_tags(rows: Seq<EpisodeTagRow>, n: i64) -> Seq<String>
    decreases rows.len(),
{
    if rows.len() == 0 {
        Seq::empty()
    } else if rows.last().episode_number == n {
        episode_tags(rows.drop_last(), n).push(rows.last().tag)
    } else {
        episode_tags(rows.drop_last(), n)
    }
}

pub open spec fn episode_crew(rows: Seq<EpisodeCrewRow>, n: i64) -> Seq<Crew>
    decreases rows.len(),
{
    if rows.len() == 0 {
        Seq::empty()
    } else if rows.last().episode_number == n {
        episode_crew(rows.drop_last(), n).push(rows.last().crew)
    } else {
        episode_crew(rows.drop_last(), n)
    }
}

/// An episode read from its row and the tag and crew rows of its season.
pub open spec fn episode_read_from(
    e: TvEpisode,
    r: EpisodeRecord,
    tags: Seq<EpisodeTagRow>,
    crew: Seq<EpisodeCrewRow>,
) -> bool {
    &&& e.id == r.episode_id
    &&& e.air_date == r.air_date
    &&& e.episode_number == r.episode_number
    &&& e.name == r.name
    &&& e.overview == r.overview
    &&& e.production_code == r.production_code
    &&& e.season_number == Some(r.season_number)
    &&& e.still_path == r.still_path
    &&& e.vote_average == r.vote_average
    &&& e.vote_count == r.vote_count
    &&& e.on_watchlist == r.on_watchlist
    &&& e.favorite == r.favorite
    &&& e.watched == r.watched
    &&& e.tags@ == ordered(episode_tags(tags, r.episode_number), tag_order())
    &&& e.crew@ == episode_crew(crew, r.episode_number)
}

fn collect_episode_tags(rows: &Vec<EpisodeTagRow>, n: i64) -> (r: Vec<String>)
    ensures
        r@ == ordered(episode_tags(rows@, n), tag_order()),
{
    let mut out: Vec<String> = Vec::new();
    let mut i: usize = 0;
    while i < rows.len()
        invariant
            i <= rows@.len(),
            out@ == ordered(episode_tags(rows@.take(i as int), n), tag_order()),
        decreases rows@.len() - i,
    {
        assert(rows@.take(i + 1).drop_last() =~= rows@.take(i as int));
        if rows[i].episode_number == n {
            proof {
                lemma_ordered_push(episode_tags(rows@.take(i as int), n), rows@[i as int].tag, tag_order());
            }
            insert_tag(&mut out, rows[i].tag.clone());
        }
        i = i + 1;
    }
    assert(rows@.take(rows@.len() as int) =~= rows@);
    out
}

fn collect_episode_crew(rows: &Vec<EpisodeCrewRow>, n: i64) -> (r: Vec<Crew>)
    ensures
        r@ == episode_crew(rows@, n),
{
    let mut out: Vec<Crew> = Vec::new();
    let mut i: usize = 0;
    while i < rows.len()
        invariant
            i <= rows@.len(),
            out@ == episode_crew(rows@.take(i as int), n),
        decreases rows@.len() - i,
    {
        assert(rows@.take(i + 1).drop_last() =~= rows@.take(i as int));
        if rows[i].episode_number == n {
            out.push(rows[i].crew.clone());
        }
        i = i + 1;
    }
    assert(rows@.take(rows@.len() as int) =~= rows@);
    out
}

/// Reads a season's episodes back, attaching each episode's tags and crew.
pub fn read_episodes(
    records: &Vec<EpisodeRecord>,
    tags: &Vec<EpisodeTagRow>,
    crew: &Vec<EpisodeCrewRow>,
) -> (r: Vec<TvEpisode>)
    ensures
        r@.len() == records@.len(),
        forall|i: int|
            0 <= i < records@.len() ==> episode_read_from(
                #[trigger] r@[i],
                records@[i],
                tags@,
                crew@,
            ),
{
    let mut out: Vec<TvEpisode> = Vec::new();
    let mut i: usize = 0;
    while i < records.len()
        invariant
            i <= records@.len(),
            out@.len() == i,
            forall|j: int|
                0 <= j < i ==> episode_read_from(#[trigger] out@[j], records@[j], tags@, crew@),
        decreases records@.len() - i,
    {
        let r = &records[i];
        out.push(
            TvEpisode {
                id: r.episode_id,
                air_date: clone_opt(&r.air_date),
                episode_number: r.episode_number,
                crew: collect_episode_crew(crew, r.episode_number),
                name: clone_opt(&r.name),
                overview: clone_opt(&r.overview),
                production_code: clone_opt(&r.production_code),
                season_number: Some(r.season_number),
                still_path: clone_opt(&r.still_path),
                vote_average: r.vote_average,
                vote_count: r.vote_count,
                on_watchlist: r.on_watchlist,
                favorite: r.favorite,
                watched: r.watched,
                tags: collect_episode_tags(tags, r.episode_number),
            },
        );
        i = i + 1;
    }
    out
}

/// The first episode numbered `n`, taken out of the list.
pub fn find_episode(episodes: Vec<TvEpisode>, n: i64) -> (r: Option<TvEpisode>)
    ensures
        match r {
            Some(e) => e.episode_number == n && exists|i: int|
                0 <= i < episodes@.len() && episodes@[i] == e && forall|j: int|
                    0 <= j < i ==> #[trigger] episodes@[j].episode_number != n,
            None => forall|i: int|
                0 <= i < episodes@.len() ==> #[trigger] episodes@[i].episode_number != n,
        },
{
    let ghost all = episodes@;
    assert(all.len() == episodes.len());
    let mut rest = episodes;
    let mut i: usize = 0;
    while rest.len() > 0
        invariant
            i <= all.len(),
            all == episodes@,
            all.len() <= usize::MAX,
            i + rest@.len() == all.len(),
            rest@ == all.skip(i as int),
            forall|j: int| 0 <= j < i ==> #[trigger] all[j].episode_number != n,
        decreases rest@.len(),
    {
        let e = rest.remove(0);
        assert(e == all[i as int]);
        if e.episode_number == n {
            assert(exists|k: int|
                0 <= k < all.len() && all[k] == e && forall|j: int|
                    0 <= j < k ==> #[trigger] all[j].episode_number != n) by {
                assert(all[i as int] == e);
            }
            return Some(e);
        }
        i = i + 1;
        assert(rest@ =~= all.skip(i as int));
    }
    None
}

} // verus!
