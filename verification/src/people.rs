//! People and credits as the store keeps them.
//!
//! A person row is first created as a stub from a credit list and completed
//! by a full fetch. Every write fills in only the fields it carries, so a stub
//! write never erases what a full fetch stored, and a user's profile override
//! wins over TMDB's profile on read.

use vstd::prelude::*;
use vstd::string::*;

use crate::model::{Cast, CastReference, Credits, Crew, Person, PersonBase, TvShowCast, TvShowCredits};
use crate::store::{PersonCreditLimits, PersonCredits, PersonRecord};
use crate::text::{clone_opt, str_eq};
use crate::video::coalesce;

verus! {

/// A person as fetched from TMDB, ready to be written. `popularity` is the bit
/// pattern of an `f32` score.
#[derive(Debug, Clone)]
pub struct PersonUpsert {
    pub id: i64,
    pub name: Option<String>,
    pub original_name: Option<String>,
    pub profile_path: Option<String>,
    pub place_of_birth: Option<String>,
    pub biography: Option<String>,
    pub birthday: Option<String>,
    pub deathday: Option<String>,
    pub gender: Option<i64>,
    pub imdb_id: Option<String>,
    pub adult: Option<bool>,
    pub popularity: Option<u32>,
    pub known_for_department: Option<String>,
}

impl Default for PersonUpsert {
    fn default() -> (r: Self)
        ensures
            r.id == 0,
            r.name is None,
            r.original_name is None,
            r.profile_path is None,
            r.place_of_birth is None,
            r.biography is None,
            r.birthday is None,
            r.deathday is None,
            r.gender is None,
            r.imdb_id is None,
            r.adult is None,
            r.popularity is None,
            r.known_for_department is None,
    {
        PersonUpsert {
            id: 0,
            name: None,
            original_name: None,
            profile_path: None,
            place_of_birth: None,
            biography: None,
            birthday: None,
            deathday: None,
            gender: None,
            imdb_id: None,
            adult: None,
            popularity: None,
            known_for_department: None,
        }
    }
}

/// One row of the `person` table.
#[derive(Debug)]
pub struct PersonRow {
    pub id: i64,
    pub name: Option<String>,
    pub original_name: Option<String>,
    pub profile_path: Option<String>,
    pub profile_path_override: Option<String>,
    pub place_of_birth: Option<String>,
    pub biography: Option<String>,
    pub birthday: Option<String>,
    pub deathday: Option<String>,
    pub gender: Option<i64>,
    pub imdb_id: Option<String>,
    pub adult: Option<bool>,
    pub popularity: Option<u32>,
    pub known_for_department: Option<String>,
    pub fetched_at: Option<String>,
}

/// The row a full person write leaves behind: each field the write carries
/// replaces the stored one, each it lacks keeps the stored one; `fetched_at`
/// is set when the write marks the person fetched. The override is never
/// touched.
pub open spec fn merged_person(existing: Option<PersonRow>, u: PersonUpsert, fetched_at: Option<String>) -> PersonRow {
    match existing {
        None => PersonRow {
            id: u.id,
            name: u.name,
            original_name: u.original_name,
            profile_path: u.profile_path,
            profile_path_override: None,
            place_of_birth: u.place_of_birth,
            biography: u.biography,
            birthday: u.birthday,
            deathday: u.deathday,
            gender: u.gender,
            imdb_id: u.imdb_id,
            adult: u.adult,
            popularity: u.popularity,
            known_for_department: u.known_for_department,
            fetched_at,
        },
        Some(p) => PersonRow {
            id: p.id,
            name: coalesce(u.name, p.name),
            original_name: coalesce(u.original_name, p.original_name),
            profile_path: coalesce(u.profile_path, p.profile_path),
            profile_path_override: p.profile_path_override,
            place_of_birth: coalesce(u.place_of_birth, p.place_of_birth),
            biography: coalesce(u.biography, p.biography),
            birthday: coalesce(u.birthday, p.birthday),
            deathday: coalesce(u.deathday, p.deathday),
            gender: coalesce(u.gender, p.gender),
            imdb_id: coalesce(u.imdb_id, p.imdb_id),
            adult: coalesce(u.adult, p.adult),
            popularity: coalesce(u.popularity, p.popularity),
            known_for_department: coalesce(u.known_for_department, p.known_for_department),
            fetched_at: coalesce(fetched_at, p.fetched_at),
        },
    }
}

/// The row a credit-list stub write leaves behind: the name and the credit's
/// person fields fill in, everything else (biography, dates, the fetch mark,
/// the override) stays as stored.
pub open spec fn merged_stub(existing: Option<PersonRow>, b: PersonBase) -> PersonRow {
    match existing {
        None => PersonRow {
            id: b.id,
            name: Some(b.name),
            original_name: b.original_name,
            profile_path: b.profile_path,
            profile_path_override: None,
            place_of_birth: None,
            biography: None,
            birthday: None,
            deathday: None,
            gender: b.gender,
            imdb_id: None,
            adult: b.adult,
            popularity: b.popularity,
            known_for_department: b.known_for_department,
            fetched_at: None,
        },
        Some(p) => PersonRow {
            name: Some(b.name),
            original_name: coalesce(b.original_name, p.original_name),
            profile_path: coalesce(b.profile_path, p.profile_path),
            gender: coalesce(b.gender, p.gender),
            popularity: coalesce(b.popularity, p.popularity),
            known_for_department: coalesce(b.known_for_department, p.known_for_department),
            adult: coalesce(b.adult, p.adult),
            ..p
        },
    }
}

fn coalesce_s(new: &Option<String>, old: &Option<String>) -> (r: Option<String>)
    ensures
        r == coalesce(*new, *old),
{
    match new {
        Some(v) => Some(v.clone()),
        None => clone_opt(old),
    }
}

fn coalesce_i(new: Option<i64>, old: Option<i64>) -> (r: Option<i64>)
    ensures
        r == coalesce(new, old),
{
    match new {
        Some(v) => Some(v),
        None => old,
    }
}

fn coalesce_u(new: Option<u32>, old: Option<u32>) -> (r: Option<u32>)
    ensures
        r == coalesce(new, old),
{
    match new {
        Some(v) => Some(v),
        None => old,
    }
}

fn coalesce_b(new: Option<bool>, old: Option<bool>) -> (r: Option<bool>)
    ensures
        r == coalesce(new, old),
{
    match new {
        Some(v) => Some(v),
        None => old,
    }
}

/// Writes a fetched person over what is stored. `fetched_at` is the fetch
/// time when the write completes the record, `None` otherwise.
pub fn merge_person(existing: Option<&PersonRow>, u: &PersonUpsert, fetched_at: Option<String>) -> (r: PersonRow)
    ensures
        r == merged_person(
            match existing {
                Some(p) => Some(*p),
                None => None,
            },
            *u,
            fetched_at,
        ),
{
    match existing {
        None => PersonRow {
            id: u.id,
            name: clone_opt(&u.name),
            original_name: clone_opt(&u.original_name),
            profile_path: clone_opt(&u.profile_path),
            profile_path_override: None,
            place_of_birth: clone_opt(&u.place_of_birth),
            biography: clone_opt(&u.biography),
            birthday: clone_opt(&u.birthday),
            deathday: clone_opt(&u.deathday),
            gender: u.gender,
            imdb_id: clone_opt(&u.imdb_id),
            adult: u.adult,
            popularity: u.popularity,
            known_for_department: clone_opt(&u.known_for_department),
            fetched_at,
        },
        Some(p) => PersonRow {
            id: p.id,
            name: coalesce_s(&u.name, &p.name),
            original_name: coalesce_s(&u.original_name, &p.original_name),
            profile_path: coalesce_s(&u.profile_path, &p.profile_path),
            profile_path_override: clone_opt(&p.profile_path_override),
            place_of_birth: coalesce_s(&u.place_of_birth, &p.place_of_birth),
            biography: coalesce_s(&u.biography, &p.biography),
            birthday: coalesce_s(&u.birthday, &p.birthday),
            deathday: coalesce_s(&u.deathday, &p.deathday),
            gender: coalesce_i(u.gender, p.gender),
            imdb_id: coalesce_s(&u.imdb_id, &p.imdb_id),
            adult: coalesce_b(u.adult, p.adult),
            popularity: coalesce_u(u.popularity, p.popularity),
            known_for_department: coalesce_s(&u.known_for_department, &p.known_for_department),
            fetched_at: coalesce_s(&fetched_at, &p.fetched_at),
        },
    }
}

/// Writes the person of a credit entry over what is stored, as a stub.
pub fn merge_person_stub(existing: Option<&PersonRow>, b: &PersonBase) -> (r: PersonRow)
    ensures
        r == merged_stub(
            match existing {
                Some(p) => Some(*p),
                None => None,
            },
            *b,
        ),
{
    match existing {
        None => PersonRow {
            id: b.id,
            name: Some(b.name.clone()),
            original_name: clone_opt(&b.original_name),
            profile_path: clone_opt(&b.profile_path),
            profile_path_override: None,
            place_of_birth: None,
            biography: None,
            birthday: None,
            deathday: None,
            gender: b.gender,
            imdb_id: None,
            adult: b.adult,
            popularity: b.popularity,
            known_for_department: clone_opt(&b.known_for_department),
            fetched_at: None,
        },
        Some(p) => PersonRow {
            id: p.id,
            name: Some(b.name.clone()),
            original_name: coalesce_s(&b.original_name, &p.original_name),
            profile_path: coalesce_s(&b.profile_path, &p.profile_path),
            profile_path_override: clone_opt(&p.profile_path_override),
            place_of_birth: clone_opt(&p.place_of_birth),
            biography: clone_opt(&p.biography),
            birthday: clone_opt(&p.birthday),
            deathday: clone_opt(&p.deathday),
            gender: coalesce_i(b.gender, p.gender),
            imdb_id: clone_opt(&p.imdb_id),
            adult: coalesce_b(b.adult, p.adult),
            popularity: coalesce_u(b.popularity, p.popularity),
            known_for_department: coalesce_s(&b.known_for_department, &p.known_for_department),
            fetched_at: clone_opt(&p.fetched_at),
        },
    }
}

/// The stored person as a record: the override, when set, stands for the
/// profile picture.
pub open spec fn record_of(p: PersonRow) -> PersonRecord {
    PersonRecord {
        id: p.id,
        name: p.name,
        profile_path: coalesce(p.profile_path_override, p.profile_path),
        place_of_birth: p.place_of_birth,
        biography: p.biography,
        birthday: p.birthday,
        deathday: p.deathday,
        gender: p.gender,
        imdb_id: p.imdb_id,
        adult: p.adult,
        fetched_at: p.fetched_at,
    }
}

/// A credit's person read from the stored person and the credit id: the
/// override stands for the profile picture, a person without a name reads with
/// the empty name.
pub open spec fn is_credit_person(b: PersonBase, p: PersonRow, credit_id: Option<String>) -> bool {
    &&& b.id == p.id
    &&& b.adult == p.adult
    &&& b.gender == p.gender
    &&& b.known_for_department == p.known_for_department
    &&& b.name@ == (match p.name {
        Some(n) => n@,
        None => Seq::<char>::empty(),
    })
    &&& b.original_name == p.original_name
    &&& b.popularity == p.popularity
    &&& b.profile_path == coalesce(p.profile_path_override, p.profile_path)
    &&& b.credit_id == credit_id
}

impl PersonRow {
    pub fn record(&self) -> (r: PersonRecord)
        ensures
            r == record_of(*self),
    {
        PersonRecord {
            id: self.id,
            name: clone_opt(&self.name),
            profile_path: coalesce_s(&self.profile_path_override, &self.profile_path),
            place_of_birth: clone_opt(&self.place_of_birth),
            biography: clone_opt(&self.biography),
            birthday: clone_opt(&self.birthday),
            deathday: clone_opt(&self.deathday),
            gender: self.gender,
            imdb_id: clone_opt(&self.imdb_id),
            adult: self.adult,
            fetched_at: clone_opt(&self.fetched_at),
        }
    }

    /// Sets or clears the user's profile picture for this person.
    pub fn set_profile_override(&mut self, profile_path: Option<String>)
        ensures
            *final(self) == (PersonRow { profile_path_override: profile_path, ..*old(self) }),
    {
        self.profile_path_override = profile_path;
    }

    /// This person as named in a credit with the given credit id; a person
    /// without a name reads with the empty name.
    pub fn credit_person(&self, credit_id: &Option<String>) -> (r: PersonBase)
        ensures
            is_credit_person(r, *self, *credit_id),
    {
        PersonBase {
            id: self.id,
            adult: self.adult,
            gender: self.gender,
            known_for_department: clone_opt(&self.known_for_department),
            name: match &self.name {
                Some(n) => n.clone(),
                None => String::new(),
            },
            original_name: clone_opt(&self.original_name),
            popularity: self.popularity,
            profile_path: coalesce_s(&self.profile_path_override, &self.profile_path),
            credit_id: clone_opt(credit_id),
        }
    }
}

/// A stored person needs a full fetch when a refresh is asked for, when it is
/// not stored, or when it is only a stub from a credit list.
pub fn person_needs_fetch(refresh: bool, cached: &Option<PersonRecord>) -> (r: bool)
    ensures
        r == (refresh || match cached {
            Some(p) => p.fetched_at is None,
            None => true,
        }),
{
    refresh || match cached {
        Some(p) => p.fetched_at.is_none(),
        None => true,
    }
}

/// One row of the `credit` table for a title.
#[derive(Debug)]
pub struct CreditRow {
    pub person_id: i64,
    pub is_cast: bool,
    pub character: Option<String>,
    pub cast_id: Option<i64>,
    pub credit_id: Option<String>,
    pub department: Option<String>,
    pub job: Option<String>,
    pub ord: i64,
}

/// The row a cast entry is stored as, at position `index` of its list: its
/// billing order when TMDB gives one, else its position.
pub open spec fn is_cast_row(r: CreditRow, c: Cast, index: int) -> bool {
    &&& r.person_id == c.person.id
    &&& r.is_cast
    &&& r.character == c.character
    &&& r.cast_id == c.cast_id
    &&& r.credit_id == c.person.credit_id
    &&& r.department is None
    &&& r.job is None
    &&& r.ord == (match c.order {
        Some(o) => o as int,
        None => index,
    })
}

/// The row a crew entry is stored as, at position `index` of its list.
pub open spec fn is_crew_row(r: CreditRow, c: Crew, index: int) -> bool {
    &&& r.person_id == c.person.id
    &&& !r.is_cast
    &&& r.character is None
    &&& r.cast_id is None
    &&& r.credit_id == c.person.credit_id
    &&& r.department == c.department
    &&& r.job == c.job
    &&& r.ord == index
}

/// The rows written for a title's credits: the cast in order, then the crew
/// in order.
pub fn credit_rows(cast: &Vec<Cast>, crew: &Vec<Crew>) -> (r: Vec<CreditRow>)
    requires
        cast@.len() <= i64::MAX,
        crew@.len() <= i64::MAX,
    ensures
        r@.len() == cast@.len() + crew@.len(),
        forall|i: int| 0 <= i < cast@.len() ==> is_cast_row(#[trigger] r@[i], cast@[i], i),
        forall|i: int|
            0 <= i < crew@.len() ==> is_crew_row(#[trigger] r@[cast@.len() + i], crew@[i], i),
{
    let mut out: Vec<CreditRow> = Vec::new();
    let mut i: usize = 0;
    while i < cast.len()
        invariant
            i <= cast@.len(),
            cast@.len() <= i64::MAX,
            out@.len() == i,
            forall|j: int| 0 <= j < i ==> is_cast_row(#[trigger] out@[j], cast@[j], j),
        decreases cast@.len() - i,
    {
        let c = &cast[i];
        out.push(
            CreditRow {
                person_id: c.person.id,
                is_cast: true,
                character: clone_opt(&c.character),
                cast_id: c.cast_id,
                credit_id: clone_opt(&c.person.credit_id),
                department: None,
                job: None,
                ord: match c.order {
                    Some(o) => o,
                    None => i as i64,
                },
            },
        );
        i = i + 1;
    }
    let mut k: usize = 0;
    while k < crew.len()
        invariant
            k <= crew@.len(),
            crew@.len() <= i64::MAX,
            out@.len() == cast@.len() + k,
            forall|j: int| 0 <= j < cast@.len() ==> is_cast_row(#[trigger] out@[j], cast@[j], j),
            forall|j: int|
                0 <= j < k ==> is_crew_row(#[trigger] out@[cast@.len() + j], crew@[j], j),
        decreases crew@.len() - k,
    {
        let c = &crew[k];
        out.push(
            CreditRow {
                person_id: c.person.id,
                is_cast: false,
                character: None,
                cast_id: None,
                credit_id: clone_opt(&c.person.credit_id),
                department: clone_opt(&c.department),
                job: clone_opt(&c.job),
                ord: k as i64,
            },
        );
        k = k + 1;
    }
    out
}

/// A credit row joined with its person, as the credit reads read them.
#[derive(Debug)]
pub struct JoinedCredit {
    pub row: CreditRow,
    pub person: PersonRow,
}

/// The cast entry a joined row reads as; its billing order is the stored
/// position.
pub open spec fn is_cast_read(c: Cast, j: JoinedCredit) -> bool {
    &&& is_credit_person(c.person, j.person, j.row.credit_id)
    &&& c.cast_id == j.row.cast_id
    &&& c.character == j.row.character
    &&& c.order == Some(j.row.ord)
}

/// The TV cast entry a joined row reads as.
pub open spec fn is_tv_cast_read(c: TvShowCast, j: JoinedCredit) -> bool {
    &&& is_credit_person(c.person, j.person, j.row.credit_id)
    &&& c.cast_id == j.row.cast_id
    &&& c.character == j.row.character
    &&& c.order == Some(j.row.ord)
}

/// The crew entry a joined row reads as.
pub open spec fn is_crew_read(c: Crew, j: JoinedCredit) -> bool {
    &&& is_credit_person(c.person, j.person, j.row.credit_id)
    &&& c.department == j.row.department
    &&& c.job == j.row.job
}

/// A crew row crediting a director.
pub open spec fn is_director_row(j: JoinedCredit) -> bool {
    !j.row.is_cast && (j.row.job matches Some(job) && job@ == "Director"@)
}

/// The rows that satisfy `keep`, in order.
pub open spec fn rows_where(rows: Seq<JoinedCredit>, keep: spec_fn(JoinedCredit) -> bool) -> Seq<JoinedCredit>
    decreases rows.len(),
{
    if rows.len() == 0 {
        Seq::empty()
    } else if keep(rows.last()) {
        rows_where(rows.drop_last(), keep).push(rows.last())
    } else {
        rows_where(rows.drop_last(), keep)
    }
}

pub open spec fn cast_rows(rows: Seq<JoinedCredit>) -> Seq<JoinedCredit> {
    rows_where(rows, |j: JoinedCredit| j.row.is_cast)
}

pub open spec fn crew_rows(rows: Seq<JoinedCredit>) -> Seq<JoinedCredit> {
    rows_where(rows, |j: JoinedCredit| !j.row.is_cast)
}

pub open spec fn director_rows(rows: Seq<JoinedCredit>) -> Seq<JoinedCredit> {
    rows_where(rows, |j: JoinedCredit| is_director_row(j))
}

fn is_director(j: &JoinedCredit) -> (r: bool)
    ensures
        r == is_director_row(*j),
{
    !j.row.is_cast && match &j.row.job {
        Some(job) => str_eq(job.as_str(), "Director"),
        None => false,
    }
}

fn read_cast(j: &JoinedCredit) -> (r: Cast)
    ensures
        is_cast_read(r, *j),
{
    Cast {
        person: j.person.credit_person(&j.row.credit_id),
        cast_id: j.row.cast_id,
        character: clone_opt(&j.row.character),
        order: Some(j.row.ord),
    }
}

fn read_crew(j: &JoinedCredit) -> (r: Crew)
    ensures
        is_crew_read(r, *j),
{
    Crew {
        person: j.person.credit_person(&j.row.credit_id),
        department: clone_opt(&j.row.department),
        job: clone_opt(&j.row.job),
    }
}

/// Reads a title's credits from its joined rows (in the store's order):
/// absent when the title has none, else the cast rows as cast and all other
/// rows as crew, each in row order.
pub fn read_credits(id: i64, rows: &Vec<JoinedCredit>) -> (r: Option<Credits>)
    ensures
        rows@.len() == 0 ==> r is None,
        rows@.len() > 0 ==> (r matches Some(c) && c.id == id && c.cast@.len() == cast_rows(rows@).len()
            && c.crew@.len() == crew_rows(rows@).len() && (forall|i: int|
            0 <= i < c.cast@.len() ==> is_cast_read(#[trigger] c.cast@[i], cast_rows(rows@)[i])) && (
        forall|i: int|
            0 <= i < c.crew@.len() ==> is_crew_read(#[trigger] c.crew@[i], crew_rows(rows@)[i]))),
{
    if rows.len() == 0 {
        return None;
    }
    let mut cast: Vec<Cast> = Vec::new();
    let mut crew: Vec<Crew> = Vec::new();
    let mut i: usize = 0;
    while i < rows.len()
        invariant
            i <= rows@.len(),
            cast@.len() == cast_rows(rows@.take(i as int)).len(),
            crew@.len() == crew_rows(rows@.take(i as int)).len(),
            forall|k: int|
                0 <= k < cast@.len() ==> is_cast_read(#[trigger] cast@[k], cast_rows(rows@.take(i as int))[k]),
            forall|k: int|
                0 <= k < crew@.len() ==> is_crew_read(#[trigger] crew@[k], crew_rows(rows@.take(i as int))[k]),
        decreases rows@.len() - i,
    {
        let ghost t = rows@.take(i + 1);
        assert(t.drop_last() =~= rows@.take(i as int));
        assert(t.last() == rows@[i as int]);
        if rows[i].row.is_cast {
            cast.push(read_cast(&rows[i]));
        } else {
            crew.push(read_crew(&rows[i]));
        }
        i = i + 1;
    }
    assert(rows@.take(rows@.len() as int) =~= rows@);
    Some(Credits { id, cast, crew })
}

/// Reads a show's credits: absent when it has none, else its cast in row
/// order.
pub fn read_tv_credits(id: i64, rows: &Vec<JoinedCredit>) -> (r: Option<TvShowCredits>)
    ensures
        rows@.len() == 0 ==> r is None,
        rows@.len() > 0 ==> (r matches Some(c) && c.id == id && c.cast@.len() == cast_rows(rows@).len()
            && forall|i: int|
            0 <= i < c.cast@.len() ==> is_tv_cast_read(#[trigger] c.cast@[i], cast_rows(rows@)[i])),
{
    if rows.len() == 0 {
        return None;
    }
    let mut cast: Vec<TvShowCast> = Vec::new();
    let mut i: usize = 0;
    while i < rows.len()
        invariant
            i <= rows@.len(),
            cast@.len() == cast_rows(rows@.take(i as int)).len(),
            forall|k: int|
                0 <= k < cast@.len() ==> is_tv_cast_read(#[trigger] cast@[k], cast_rows(rows@.take(i as int))[k]),
        decreases rows@.len() - i,
    {
        let ghost t = rows@.take(i + 1);
        assert(t.drop_last() =~= rows@.take(i as int));
        assert(t.last() == rows@[i as int]);
        if rows[i].row.is_cast {
            let j = &rows[i];
            cast.push(
                TvShowCast {
                    person: j.person.credit_person(&j.row.credit_id),
                    cast_id: j.row.cast_id,
                    character: clone_opt(&j.row.character),
                    order: Some(j.row.ord),
                },
            );
        }
        i = i + 1;
    }
    assert(rows@.take(rows@.len() as int) =~= rows@);
    Some(TvShowCredits { id, cast })
}

/// The directors of a movie: its crew rows whose job is `Director`, in row
/// order.
pub fn read_directors(rows: &Vec<JoinedCredit>) -> (r: Vec<Crew>)
    ensures
        r@.len() == director_rows(rows@).len(),
        forall|i: int| 0 <= i < r@.len() ==> is_crew_read(#[trigger] r@[i], director_rows(rows@)[i]),
{
    let mut out: Vec<Crew> = Vec::new();
    let mut i: usize = 0;
    while i < rows.len()
        invariant
            i <= rows@.len(),
            out@.len() == director_rows(rows@.take(i as int)).len(),
            forall|k: int|
                0 <= k < out@.len() ==> is_crew_read(#[trigger] out@[k], director_rows(rows@.take(i as int))[k]),
        decreases rows@.len() - i,
    {
        let ghost t = rows@.take(i + 1);
        assert(t.drop_last() =~= rows@.take(i as int));
        assert(t.last() == rows@[i as int]);
        if is_director(&rows[i]) {
            out.push(read_crew(&rows[i]));
        }
        i = i + 1;
    }
    assert(rows@.take(rows@.len() as int) =~= rows@);
    out
}

/// A title of the library a person is credited on: its id and the role
/// (character or job) as stored, if any.
#[derive(Debug)]
pub struct CreditedTitle {
    pub video_id: i64,
    pub role: Option<String>,
}

/// How many of `n` rows a `LIMIT limit` keeps: all of them for a negative
/// limit (SQLite's "no limit"), else at most `limit`.
pub open spec fn limited(n: int, limit: i64) -> int {
    if limit < 0 || n <= limit {
        n
    } else {
        limit as int
    }
}

/// Back-references to the first `limit` titles (all when `limit` is
/// negative), in order: each carries the title's id and its role, or
/// `default` where none is stored.
pub fn cast_references(rows: &Vec<CreditedTitle>, default: &str, limit: i64) -> (r: Vec<CastReference>)
    ensures
        r@.len() == limited(rows@.len() as int, limit),
        forall|i: int|
            0 <= i < r@.len() ==> (#[trigger] r@[i]).cast_id == rows@[i].video_id && r@[i].character@
                == (match rows@[i].role {
                Some(s) => s@,
                None => default@,
            }),
{
    let len: usize = rows.len();
    let n: usize = if limit < 0 {
        len
    } else if (len as u64) <= (limit as u64) {
        len
    } else {
        limit as usize
    };
    let mut out: Vec<CastReference> = Vec::new();
    let mut i: usize = 0;
    while i < n
        invariant
            n <= rows@.len(),
            n == limited(rows@.len() as int, limit),
            i <= n,
            out@.len() == i,
            forall|k: int|
                0 <= k < i ==> (#[trigger] out@[k]).cast_id == rows@[k].video_id && out@[k].character@
                    == (match rows@[k].role {
                    Some(s) => s@,
                    None => default@,
                }),
        decreases n - i,
    {
        let character = match &rows[i].role {
            Some(s) => s.clone(),
            None => String::from_str(default),
        };
        out.push(CastReference { cast_id: rows[i].video_id, character });
        i = i + 1;
    }
    out
}

/// A person's back-references into the library, each list cut to its limit:
/// characters default to the empty string, a directing credit without a job
/// reads as `Director`.
pub fn person_credits(
    movie_cast: &Vec<CreditedTitle>,
    directed: &Vec<CreditedTitle>,
    tv_cast: &Vec<CreditedTitle>,
    limits: &PersonCreditLimits,
) -> (r: PersonCredits)
    ensures
        r.movie_cast@.len() == limited(movie_cast@.len() as int, limits.movie_cast),
        r.directed_movies@.len() == limited(directed@.len() as int, limits.directed),
        r.tv_cast@.len() == limited(tv_cast@.len() as int, limits.tv_cast),
        forall|i: int|
            0 <= i < r.movie_cast@.len() ==> (#[trigger] r.movie_cast@[i]).cast_id == movie_cast@[i].video_id
                && r.movie_cast@[i].character@ == (match movie_cast@[i].role {
                Some(s) => s@,
                None => Seq::<char>::empty(),
            }),
        forall|i: int|
            0 <= i < r.directed_movies@.len() ==> (#[trigger] r.directed_movies@[i]).cast_id == directed@[i].video_id
                && r.directed_movies@[i].character@ == (match directed@[i].role {
                Some(s) => s@,
                None => "Director"@,
            }),
        forall|i: int|
            0 <= i < r.tv_cast@.len() ==> (#[trigger] r.tv_cast@[i]).cast_id == tv_cast@[i].video_id
                && r.tv_cast@[i].character@ == (match tv_cast@[i].role {
                Some(s) => s@,
                None => Seq::<char>::empty(),
            }),
{
    proof {
        reveal_strlit("");
    }
    PersonCredits {
        movie_cast: cast_references(movie_cast, "", limits.movie_cast),
        directed_movies: cast_references(directed, "Director", limits.directed),
        tv_cast: cast_references(tv_cast, "", limits.tv_cast),
    }
}

/// A person response: the stored record and its back-references.
pub fn assemble_person(record: PersonRecord, credits: PersonCredits) -> (r: Person)
    ensures
        r.id == record.id,
        r.name == record.name,
        r.profile_path == record.profile_path,
        r.place_of_birth == record.place_of_birth,
        r.biography == record.biography,
        r.birthday == record.birthday,
        r.deathday == record.deathday,
        r.gender == record.gender,
        r.imdb_id == record.imdb_id,
        r.adult == record.adult,
        r.movie_cast == credits.movie_cast,
        r.directed_movies == credits.directed_movies,
        r.tv_cast == credits.tv_cast,
{
    Person {
        id: record.id,
        name: record.name,
        profile_path: record.profile_path,
        place_of_birth: record.place_of_birth,
        biography: record.biography,
        birthday: record.birthday,
        deathday: record.deathday,
        gender: record.gender,
        imdb_id: record.imdb_id,
        adult: record.adult,
        movie_cast: credits.movie_cast,
        directed_movies: credits.directed_movies,
        tv_cast: credits.tv_cast,
    }
}

} // verus!
