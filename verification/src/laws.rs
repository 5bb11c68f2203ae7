//! Properties that span several operations of the library.

use vstd::prelude::*;

use crate::collection::{are_rows_of, is_part_read, upserted, StoredCollection};
use crate::model::{Collection, Flag, Genre, Network, PersonBase, ProviderKind, VideoBase, WatchProvider};
use crate::episode::{merged_episode, EpisodeRecord};
use crate::model::TvEpisode;
use crate::people::{merged_person, merged_stub, record_of, PersonRow, PersonUpsert};
use crate::store::LocalState;
use crate::store::VideoOverrides;
use crate::sorting::{
    genre_order, lemma_holds_str_reordered, lemma_orders_strict, law_ordered, network_order, ordered, provider_order,
    sorted_by, tag_order,
};
use crate::text::holds_str;
use crate::video::{
    base_flag, has_tag, lemma_toggled_tags_membership, lemma_without_absent, lemma_without_str_excludes, without_str, merged_record, reads_as, tag_filtered,
    toggled_tags, with_flag, with_overrides, VideoRecord, VideoUpsert, genres_for, networks_for, providers_for,
    hydrated_from, relations_written, GenreRow, NetworkRow, ProviderRow, RelationWrites, TagRow,
};

verus! {

/// Refreshing a title's metadata from TMDB leaves the user's flags, overrides
/// and werStreamtEs id exactly as they were, and never turns a fully loaded row
/// back into a stub.
pub proof fn law_refresh_keeps_user_state(old: VideoRecord, u: VideoUpsert, now: String)
    ensures
        ({
            let m = merged_record(Some(old), u, now);
            &&& m.favorite == old.favorite
            &&& m.on_watchlist == old.on_watchlist
            &&& m.watched == old.watched
            &&& m.poster_path_override == old.poster_path_override
            &&& m.backdrop_path_override == old.backdrop_path_override
            &&& m.overview_override == old.overview_override
            &&& m.imdb_id_override == old.imdb_id_override
            &&& m.wer_streamt_es_id == old.wer_streamt_es_id
            &&& (old.details_loaded ==> m.details_loaded)
        }),
{
}

/// An override written by a patch wins over the TMDB value on read, also after
/// any later metadata refresh.
pub proof fn law_override_wins_after_refresh(
    r: VideoRecord,
    o: VideoOverrides,
    u: VideoUpsert,
    now: String,
    b: VideoBase,
)
    requires
        reads_as(b, merged_record(Some(with_overrides(r, o)), u, now)),
    ensures
        o.poster_path matches Some(p) ==> b.poster_path == Some(p),
        o.backdrop_path matches Some(p) ==> b.backdrop_path == Some(p),
        o.overview matches Some(p) ==> b.overview == Some(p),
        o.imdb_id matches Some(p) ==> b.imdb_id == Some(p),
        o.wer_streamt_es_id matches Some(p) ==> b.wer_streamt_es_id == Some(p),
{
}

/// A flag set on a row reads back with that value, and the other flags are
/// untouched.
pub proof fn law_flag_reads_back(r: VideoRecord, f: Flag, value: bool, b: VideoBase)
    requires
        reads_as(b, with_flag(r, f, value)),
    ensures
        base_flag(b, f) == value,
        forall|g: Flag| g != f ==> base_flag(b, g) == (match g {
            Flag::Favorite => r.favorite,
            Flag::Watched => r.watched,
            Flag::Watchlist => r.on_watchlist,
        }),
{
}

/// After a tag is switched on, the title is listed under that tag and not under
/// its negation; after it is switched off, the reverse. Its other tags are
/// unchanged, and the tags read back in text order.
pub proof fn law_toggled_tag_lists(v: Seq<String>, t: String, on: bool, b: VideoBase)
    requires
        b.tags@ == ordered(toggled_tags(v, t, on), tag_order()),
    ensures
        has_tag(b, t@) == on,
        forall|u: Seq<char>| u != t@ ==> (has_tag(b, u) <==> holds_str(v, u)),
        sorted_by(b.tags@, tag_order()),
        tag_filtered(seq![b], t@, false) == (if on {
            seq![b]
        } else {
            Seq::<VideoBase>::empty()
        }),
        tag_filtered(seq![b], t@, true) == (if on {
            Seq::<VideoBase>::empty()
        } else {
            seq![b]
        }),
{
    lemma_toggled_tags_membership(v, t, on);
    let w = toggled_tags(v, t, on);
    lemma_orders_strict();
    law_ordered(w, tag_order());
    lemma_holds_str_reordered(w, b.tags@, t@);
    assert forall|u: Seq<char>| u != t@ implies (has_tag(b, u) <==> holds_str(v, u)) by {
        lemma_holds_str_reordered(w, b.tags@, u);
    }
    let s = seq![b];
    assert(s.drop_last() =~= Seq::<VideoBase>::empty());
    assert(s.last() == b);
    assert(tag_filtered(s.drop_last(), t@, false) == Seq::<VideoBase>::empty());
    assert(tag_filtered(s.drop_last(), t@, true) == Seq::<VideoBase>::empty());
    assert(Seq::<VideoBase>::empty().push(b) =~= s);
}

/// Writing a collection stub (no parts) after a full fetch keeps the fetched
/// part list: a movie's reference to its collection never wipes the parts.
pub proof fn law_stub_keeps_parts(
    e0: Option<StoredCollection>,
    full: Collection,
    s1: StoredCollection,
    stub: Collection,
    s2: StoredCollection,
)
    requires
        full.parts@.len() > 0,
        upserted(e0, full, s1),
        stub.parts@.len() == 0,
        upserted(Some(s1), stub, s2),
    ensures
        are_rows_of(s2.parts@, full.parts@),
        s2.name == stub.name,
{
}

/// A collection read back after a write with parts lists exactly those parts,
/// in order, with their ids, names and TMDB fields; the flags come from the
/// library's local state.
pub proof fn law_collection_read_back(
    e: Option<StoredCollection>,
    c: Collection,
    s: StoredCollection,
    locals: Map<i64, LocalState>,
    r: Collection,
)
    requires
        c.parts@.len() > 0,
        upserted(e, c, s),
        r.parts@.len() == s.parts@.len(),
        forall|i: int|
            0 <= i < r.parts@.len() ==> is_part_read(
                #[trigger] r.parts@[i],
                s.parts@[i],
                crate::store::local_for(locals, s.parts@[i].movie_id),
            ),
    ensures
        r.parts@.len() == c.parts@.len(),
        forall|i: int|
            0 <= i < r.parts@.len() ==> {
                let (p, q) = (#[trigger] r.parts@[i], c.parts@[i]);
                &&& p.base.id == q.base.id
                &&& p.base.display_name == q.base.display_name
                &&& p.base.poster_path == q.base.poster_path
                &&& p.base.backdrop_path == q.base.backdrop_path
                &&& p.base.release_date == q.base.release_date
                &&& p.base.overview == q.base.overview
                &&& p.base.vote_average == q.base.vote_average
                &&& p.base.vote_count == q.base.vote_count
                &&& p.base.popularity == q.base.popularity
                &&& p.base.adult == q.base.adult
                &&& p.title == q.title
                &&& p.original_title == q.original_title
                &&& p.original_language == q.original_language
                &&& p.video == q.video
            },
{
    assert forall|i: int| 0 <= i < r.parts@.len() implies {
        let (p, q) = (#[trigger] r.parts@[i], c.parts@[i]);
        &&& p.base.id == q.base.id
        &&& p.base.display_name == q.base.display_name
        &&& p.base.poster_path == q.base.poster_path
        &&& p.base.backdrop_path == q.base.backdrop_path
        &&& p.base.release_date == q.base.release_date
        &&& p.base.overview == q.base.overview
        &&& p.base.vote_average == q.base.vote_average
        &&& p.base.vote_count == q.base.vote_count
        &&& p.base.popularity == q.base.popularity
        &&& p.base.adult == q.base.adult
        &&& p.title == q.title
        &&& p.original_title == q.original_title
        &&& p.original_language == q.original_language
        &&& p.video == q.video
    } by {
        assert(crate::collection::is_row_of(s.parts@[i], c.parts@[i]));
    }
}

/// A person completed by a full fetch stays complete: a later stub write from
/// a credit list keeps the fetch mark, biography, dates, birthplace, IMDb id
/// and the user's profile override, so the person is not fetched again unless
/// a refresh is asked for.
pub proof fn law_fetched_person_stays_fetched(
    e: Option<PersonRow>,
    u: PersonUpsert,
    fetched_at: String,
    b: PersonBase,
)
    ensures
        ({
            let p = merged_person(e, u, Some(fetched_at));
            let q = merged_stub(Some(p), b);
            &&& record_of(p).fetched_at == Some(fetched_at)
            &&& record_of(q).fetched_at == Some(fetched_at)
            &&& q.biography == p.biography
            &&& q.birthday == p.birthday
            &&& q.deathday == p.deathday
            &&& q.place_of_birth == p.place_of_birth
            &&& q.imdb_id == p.imdb_id
            &&& q.profile_path_override == p.profile_path_override
        }),
{
}

/// A profile picture chosen by the user wins over TMDB's on read, also after a
/// later full fetch or stub write.
pub proof fn law_profile_override_wins(
    p: PersonRow,
    path: String,
    u: PersonUpsert,
    fetched_at: Option<String>,
    b: PersonBase,
)
    ensures
        ({
            let o = PersonRow { profile_path_override: Some(path), ..p };
            &&& record_of(o).profile_path == Some(path)
            &&& record_of(merged_person(Some(o), u, fetched_at)).profile_path == Some(path)
            &&& record_of(merged_stub(Some(o), b)).profile_path == Some(path)
        }),
{
}

/// Refreshing a season's episodes from TMDB keeps each stored episode's
/// watched, favourite and watch-list flags, while its metadata is replaced.
pub proof fn law_episode_refresh_keeps_flags(old: EpisodeRecord, tv_show_id: i64, season_number: i64, e: TvEpisode)
    ensures
        ({
            let m = merged_episode(Some(old), tv_show_id, season_number, e);
            &&& m.favorite == old.favorite
            &&& m.on_watchlist == old.on_watchlist
            &&& m.watched == old.watched
            &&& m.name == e.name
            &&& m.overview == e.overview
            &&& m.episode_number == e.episode_number
        }),
{
}

/// Switching a tag is idempotent, and switching on a tag a title lacked and
/// then off again restores its tags exactly.
pub proof fn law_tag_toggle_round_trip(v: Seq<String>, t: String, on: bool)
    ensures
        toggled_tags(toggled_tags(v, t, on), t, on) == toggled_tags(v, t, on),
        !holds_str(v, t@) ==> toggled_tags(toggled_tags(v, t, true), t, false) == v,
{
    lemma_toggled_tags_membership(v, t, on);
    lemma_without_str_excludes(v, t@);
    if !on {
        lemma_without_absent(without_str(v, t@), t@);
    }
    if !holds_str(v, t@) {
        let w = v.push(t);
        lemma_without_absent(v, t@);
        assert(w.drop_last() =~= v);
        assert(w.last()@ == t@);
    }
}

/// A tag filter and its negation split the listing: every title lands in
/// exactly one of them, each keeps the listing's order, the first holds only
/// titles carrying the tag and the second only titles without it.
pub proof fn law_tag_filter_partitions(v: Seq<VideoBase>, t: Seq<char>)
    ensures
        tag_filtered(v, t, false).to_multiset().add(tag_filtered(v, t, true).to_multiset()) == v.to_multiset(),
        tag_filtered(v, t, false).len() + tag_filtered(v, t, true).len() == v.len(),
        forall|i: int| 0 <= i < tag_filtered(v, t, false).len() ==> has_tag(#[trigger] tag_filtered(v, t, false)[i], t),
        forall|i: int| 0 <= i < tag_filtered(v, t, true).len() ==> !has_tag(#[trigger] tag_filtered(v, t, true)[i], t),
    decreases v.len(),
{
    broadcast use vstd::seq_lib::group_to_multiset_ensures;
    if v.len() == 0 {
        assert(v.to_multiset() =~= vstd::multiset::Multiset::empty());
        assert(tag_filtered(v, t, false).to_multiset() =~= vstd::multiset::Multiset::empty());
        assert(tag_filtered(v, t, true).to_multiset() =~= vstd::multiset::Multiset::empty());
    } else {
        let p = v.drop_last();
        law_tag_filter_partitions(p, t);
        assert(v =~= p.push(v.last()));
        let a = tag_filtered(p, t, false);
        let b = tag_filtered(p, t, true);
        if has_tag(v.last(), t) {
            assert(tag_filtered(v, t, false) == a.push(v.last()));
            assert(tag_filtered(v, t, true) == b);
            assert(a.push(v.last()).to_multiset().add(b.to_multiset()) =~= p.to_multiset().insert(v.last()));
        } else {
            assert(tag_filtered(v, t, false) == a);
            assert(tag_filtered(v, t, true) == b.push(v.last()));
            assert(a.to_multiset().add(b.push(v.last()).to_multiset()) =~= p.to_multiset().insert(v.last()));
        }
    }
}

/// Setting a tag on a title is idempotent: repeating the same switch leaves
/// the tags it reads back exactly as after the first.
pub proof fn law_set_tag_idempotent(v: Seq<String>, t: String, on: bool)
    ensures
        ordered(toggled_tags(toggled_tags(v, t, on), t, on), tag_order()) == ordered(toggled_tags(v, t, on), tag_order()),
{
    law_tag_toggle_round_trip(v, t, on);
}

/// The providers of one kind in a write, in order.
pub open spec fn providers_of_kind(s: Seq<(ProviderKind, WatchProvider)>, k: ProviderKind) -> Seq<WatchProvider>
    decreases s.len(),
{
    if s.len() == 0 {
        Seq::empty()
    } else if s.last().0 == k {
        providers_of_kind(s.drop_last(), k).push(s.last().1)
    } else {
        providers_of_kind(s.drop_last(), k)
    }
}

proof fn lemma_written_relations(u: VideoUpsert, w: RelationWrites, n: int)
    requires
        relations_written(u, w),
        0 <= n,
    ensures
        n <= u.genres@.len() ==> genres_for(w.genres@.take(n), u.video_type, u.id) == u.genres@.take(n),
        n <= u.networks@.len() ==> networks_for(w.networks@.take(n), u.video_type, u.id) == u.networks@.take(n),
        w.providers matches Some(p) ==> (n <= p@.len() ==> forall|k: ProviderKind|
            providers_for(p@.take(n), u.video_type, u.id, k) == providers_of_kind(u.watch_providers@.take(n), k)),
    decreases n,
{
    if n > 0 {
        lemma_written_relations(u, w, n - 1);
        if n <= u.genres@.len() {
            assert(w.genres@.take(n).drop_last() =~= w.genres@.take(n - 1));
            assert(u.genres@.take(n) =~= u.genres@.take(n - 1).push(u.genres@[n - 1]));
            assert(w.genres@[n - 1].genre == u.genres@[n - 1]);
        }
        if n <= u.networks@.len() {
            assert(w.networks@.take(n).drop_last() =~= w.networks@.take(n - 1));
            assert(u.networks@.take(n) =~= u.networks@.take(n - 1).push(u.networks@[n - 1]));
            assert(w.networks@[n - 1].network == u.networks@[n - 1]);
        }
        if w.providers is Some {
            let p = w.providers->0;
            if n <= p@.len() {
                assert(p@.take(n).drop_last() =~= p@.take(n - 1));
                assert(u.watch_providers@.take(n).drop_last() =~= u.watch_providers@.take(n - 1));
                let row = p@[n - 1];
                assert(crate::model::provider_kind_of(row.kind@) == Some(u.watch_providers@[n - 1].0));
                assert forall|k: ProviderKind|
                    providers_for(p@.take(n), u.video_type, u.id, k) == providers_of_kind(
                        u.watch_providers@.take(n),
                        k,
                    ) by {
                    assert(p@.take(n).last() == row);
                    assert(u.watch_providers@.take(n).last() == u.watch_providers@[n - 1]);
                    assert(providers_for(p@.take(n - 1), u.video_type, u.id, k) == providers_of_kind(
                        u.watch_providers@.take(n - 1),
                        k,
                    ));
                    assert(row.video_type == u.video_type && row.video_id == u.id);
                    assert(row.provider == u.watch_providers@[n - 1].1);
                    if u.watch_providers@[n - 1].0 == k {
                        assert(providers_for(p@.take(n), u.video_type, u.id, k) == providers_for(
                            p@.take(n - 1),
                            u.video_type,
                            u.id,
                            k,
                        ).push(row.provider));
                    } else {
                        assert(crate::model::provider_kind_of(row.kind@) != Some(k));
                        assert(providers_for(p@.take(n), u.video_type, u.id, k) == providers_for(
                            p@.take(n - 1),
                            u.video_type,
                            u.id,
                            k,
                        ));
                    }
                }
            }
        }
    } else {
        assert(w.genres@.take(0) =~= Seq::<GenreRow>::empty());
        assert(u.genres@.take(0) =~= Seq::<Genre>::empty());
        assert(w.networks@.take(0) =~= Seq::<NetworkRow>::empty());
        assert(u.networks@.take(0) =~= Seq::<Network>::empty());
        if w.providers is Some {
            assert(w.providers->0@.take(0) =~= Seq::<ProviderRow>::empty());
            assert(u.watch_providers@.take(0) =~= Seq::<(ProviderKind, WatchProvider)>::empty());
        }
    }
}

/// Read straight after a metadata write, a title carries exactly the genres
/// and networks the write gave it, by name; when the write carried watch
/// providers it carries exactly those, each kind in its list by display
/// priority and name.
pub proof fn law_upsert_relations_read_back(
    u: VideoUpsert,
    w: RelationWrites,
    b: VideoBase,
    r: VideoRecord,
    tags: Seq<TagRow>,
    providers: Seq<ProviderRow>,
)
    requires
        relations_written(u, w),
        r.video_type == u.video_type,
        r.video_id == u.id,
        w.providers matches Some(p) ==> providers == p@,
        hydrated_from(b, r, tags, w.genres@, w.networks@, providers),
    ensures
        b.genres@ == ordered(u.genres@, genre_order()),
        b.networks@ == ordered(u.networks@, network_order()),
        u.watch_providers@.len() > 0 ==> {
            &&& b.flatrate_watch_providers@ == ordered(
                providers_of_kind(u.watch_providers@, ProviderKind::Flatrate),
                provider_order(),
            )
            &&& b.rent_watch_providers@ == ordered(
                providers_of_kind(u.watch_providers@, ProviderKind::Rent),
                provider_order(),
            )
            &&& b.buy_watch_providers@ == ordered(
                providers_of_kind(u.watch_providers@, ProviderKind::Buy),
                provider_order(),
            )
        },
{
    lemma_written_relations(u, w, u.genres@.len() as int);
    lemma_written_relations(u, w, u.networks@.len() as int);
    assert(w.genres@.take(u.genres@.len() as int) =~= w.genres@);
    assert(u.genres@.take(u.genres@.len() as int) =~= u.genres@);
    assert(w.networks@.take(u.networks@.len() as int) =~= w.networks@);
    assert(u.networks@.take(u.networks@.len() as int) =~= u.networks@);
    if u.watch_providers@.len() > 0 {
        let p = w.providers->0;
        lemma_written_relations(u, w, p@.len() as int);
        assert(p@.take(p@.len() as int) =~= p@);
        assert(u.watch_providers@.take(p@.len() as int) =~= u.watch_providers@);
        assert(providers_for(p@, u.video_type, u.id, ProviderKind::Flatrate) == providers_of_kind(
            u.watch_providers@,
            ProviderKind::Flatrate,
        ));
        assert(providers_for(p@, u.video_type, u.id, ProviderKind::Rent) == providers_of_kind(
            u.watch_providers@,
            ProviderKind::Rent,
        ));
        assert(providers_for(p@, u.video_type, u.id, ProviderKind::Buy) == providers_of_kind(
            u.watch_providers@,
            ProviderKind::Buy,
        ));
    }
}

} // verus!
