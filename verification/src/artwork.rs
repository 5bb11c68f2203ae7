//! Stored image sets. A set that was never fetched reads as absent, so the
//! caller knows to fetch it; a fetched set reads as present even when empty.

use vstd::prelude::*;
use vstd::string::*;

use crate::model::{Image, Images};
use crate::store::ImageOwner;
use crate::text::str_eq;

verus! {

/// One row of the `image` table for a given owner.
#[derive(Debug)]
pub struct ImageRow {
    pub kind: String,
    pub ord: i64,
    pub image: Image,
}

/// The kind a poster is stored under: person artwork is kept as `profile`.
pub open spec fn poster_kind(owner: ImageOwner) -> Seq<char> {
    if owner == ImageOwner::Person {
        "profile"@
    } else {
        "poster"@
    }
}

/// The images of `list` that have a file path, in order.
pub open spec fn with_path(list: Seq<Image>) -> Seq<Image>
    decreases list.len(),
{
    if list.len() == 0 {
        Seq::empty()
    } else if list.last().file_path is Some {
        with_path(list.drop_last()).push(list.last())
    } else {
        with_path(list.drop_last())
    }
}

/// The images of the rows whose kind satisfies `pick`, in row order.
pub open spec fn images_of_kind(rows: Seq<ImageRow>, k1: Seq<char>, k2: Seq<char>) -> Seq<Image>
    decreases rows.len(),
{
    if rows.len() == 0 {
        Seq::empty()
    } else if rows.last().kind@ == k1 || rows.last().kind@ == k2 {
        images_of_kind(rows.drop_last(), k1, k2).push(rows.last().image)
    } else {
        images_of_kind(rows.drop_last(), k1, k2)
    }
}

/// The rows written for one kind: with their kind, position and image.
pub open spec fn is_rows_of(rows: Seq<ImageRow>, list: Seq<Image>, kind: Seq<char>) -> bool {
    &&& rows.len() == with_path(list).len()
    &&& forall|i: int| 0 <= i < rows.len() ==> (#[trigger] rows[i]).kind@ == kind
    &&& forall|i: int| 0 <= i < rows.len() ==> (#[trigger] rows[i]).image == with_path(list)[i]
}

fn kind_rows(list: &Vec<Image>, kind: &str, out: &mut Vec<ImageRow>)
    requires
        list@.len() <= i64::MAX,
    ensures
        is_rows_of(final(out)@.skip(old(out)@.len() as int), list@, kind@),
        final(out)@.take(old(out)@.len() as int) == old(out)@,
        final(out)@.len() >= old(out)@.len(),
{
    let ghost start = out@;
    let mut i: usize = 0;
    while i < list.len()
        invariant
            i <= list@.len(),
            list@.len() <= i64::MAX,
            out@.take(start.len() as int) == start,
            out@.len() >= start.len(),
            is_rows_of(out@.skip(start.len() as int), list@.take(i as int), kind@),
        decreases list@.len() - i,
    {
        let ghost before = out@;
        assert(list@.take(i + 1).drop_last() =~= list@.take(i as int));
        if list[i].file_path.is_some() {
            out.push(ImageRow { kind: String::from_str(kind), ord: i as i64, image: list[i].clone() });
            proof {
                assert(out@.take(start.len() as int) =~= before.take(start.len() as int));
                let w = out@.skip(start.len() as int);
                assert(w =~= before.skip(start.len() as int).push(out@.last()));
            }
        }
        i = i + 1;
    }
    assert(list@.take(i as int) =~= list@);
}

/// The rows that store an image set: backdrops, then posters (kept as
/// `profile` for a person), then logos; images without a file path are skipped,
/// and each row records its position in its list.
pub fn image_rows(owner: ImageOwner, backdrops: &Vec<Image>, posters: &Vec<Image>, logos: &Vec<
    Image,
>) -> (r: Vec<ImageRow>)
    requires
        backdrops@.len() <= i64::MAX,
        posters@.len() <= i64::MAX,
        logos@.len() <= i64::MAX,
    ensures
        ({
            let nb = with_path(backdrops@).len() as int;
            let np = with_path(posters@).len() as int;
            &&& is_rows_of(r@.subrange(0, nb), backdrops@, "backdrop"@)
            &&& is_rows_of(r@.subrange(nb, nb + np), posters@, poster_kind(owner))
            &&& is_rows_of(r@.skip(nb + np), logos@, "logo"@)
        }),
{
    let mut out: Vec<ImageRow> = Vec::new();
    kind_rows(backdrops, "backdrop", &mut out);
    let ghost a = out@;
    let kind = if owner == ImageOwner::Person {
        "profile"
    } else {
        "poster"
    };
    kind_rows(posters, kind, &mut out);
    let ghost b = out@;
    kind_rows(logos, "logo", &mut out);
    proof {
        assert(a.skip(0) =~= a);
        let nb = with_path(backdrops@).len() as int;
        let np = with_path(posters@).len() as int;
        assert(a.len() == nb);
        assert(b.len() == nb + np);
        assert forall|i: int| 0 <= i < b.len() implies out@[i] == b[i] by {
            assert(out@.take(b.len() as int)[i] == out@[i]);
        }
        assert forall|i: int| 0 <= i < a.len() implies b[i] == a[i] by {
            assert(b.take(a.len() as int)[i] == b[i]);
        }
        assert(out@.subrange(0, nb) =~= a);
        assert(out@.subrange(nb, nb + np) =~= b.skip(a.len() as int));
        assert(out@.skip(nb + np) =~= out@.skip(b.len() as int));
    }
    out
}

fn collect_kind(rows: &Vec<ImageRow>, k1: &str, k2: &str) -> (r: Vec<Image>)
    ensures
        r@ == images_of_kind(rows@, k1@, k2@),
{
    let mut out: Vec<Image> = Vec::new();
    let mut i: usize = 0;
    while i < rows.len()
        invariant
            i <= rows@.len(),
            out@ == images_of_kind(rows@.take(i as int), k1@, k2@),
        decreases rows@.len() - i,
    {
        assert(rows@.take(i + 1).drop_last() =~= rows@.take(i as int));
        if str_eq(rows[i].kind.as_str(), k1) || str_eq(rows[i].kind.as_str(), k2) {
            out.push(rows[i].image.clone());
        }
        i = i + 1;
    }
    assert(rows@.take(rows@.len() as int) =~= rows@);
    out
}

/// Reads a stored image set: absent when it was never fetched; otherwise its
/// backdrops, logos and posters (person profiles read as posters), in row order,
/// labelled with the owner (and, for a season, the show and season number).
pub fn read_images(owner: ImageOwner, owner_id: i64, fetched: bool, rows: &Vec<ImageRow>) -> (r:
    Option<Images>)
    ensures
        !fetched ==> r is None,
        fetched ==> (r matches Some(im) && im.id == Some(owner_id) && im.tv_show_id == (match owner {
            ImageOwner::TvSeason { .. } => Some(owner_id),
            _ => None,
        }) && im.season_number == (match owner {
            ImageOwner::TvSeason { season_number } => Some(season_number),
            _ => None,
        }) && im.backdrops@ == images_of_kind(rows@, "backdrop"@, "backdrop"@) && im.logos@
            == images_of_kind(rows@, "logo"@, "logo"@) && im.posters@ == images_of_kind(
            rows@,
            "poster"@,
            "profile"@,
        )),
{
    if !fetched {
        return None;
    }
    let (tv_show_id, season_number) = match owner {
        ImageOwner::TvSeason { season_number } => (Some(owner_id), Some(season_number)),
        _ => (None, None),
    };
    Some(
        Images {
            id: Some(owner_id),
            tv_show_id,
            season_number,
            backdrops: collect_kind(rows, "backdrop", "backdrop"),
            logos: collect_kind(rows, "logo", "logo"),
            posters: collect_kind(rows, "poster", "profile"),
        },
    )
}

/// Filtering by kind distributes over concatenation.
pub proof fn lemma_kind_concat(a: Seq<ImageRow>, b: Seq<ImageRow>, k1: Seq<char>, k2: Seq<char>)
    ensures
        images_of_kind(a + b, k1, k2) == images_of_kind(a, k1, k2) + images_of_kind(b, k1, k2),
    decreases b.len(),
{
    if b.len() == 0 {
        assert(a + b =~= a);
        assert(images_of_kind(a, k1, k2) + Seq::<Image>::empty() =~= images_of_kind(a, k1, k2));
    } else {
        lemma_kind_concat(a, b.drop_last(), k1, k2);
        assert((a + b).drop_last() =~= a + b.drop_last());
        assert((a + b).last() == b.last());
        if b.last().kind@ == k1 || b.last().kind@ == k2 {
            assert(images_of_kind(a, k1, k2) + images_of_kind(b.drop_last(), k1, k2).push(b.last().image)
                =~= (images_of_kind(a, k1, k2) + images_of_kind(b.drop_last(), k1, k2)).push(
                b.last().image,
            ));
        }
    }
}

/// Rows of one kind, filtered by that kind, give back their images in order;
/// filtered by other kinds, they give nothing.
pub proof fn lemma_kind_segment(rows: Seq<ImageRow>, kind: Seq<char>, k1: Seq<char>, k2: Seq<char>)
    requires
        forall|i: int| 0 <= i < rows.len() ==> (#[trigger] rows[i]).kind@ == kind,
    ensures
        (kind == k1 || kind == k2) ==> images_of_kind(rows, k1, k2).len() == rows.len(),
        (kind == k1 || kind == k2) ==> forall|i: int|
            0 <= i < rows.len() ==> #[trigger] images_of_kind(rows, k1, k2)[i] == rows[i].image,
        (kind != k1 && kind != k2) ==> images_of_kind(rows, k1, k2).len() == 0,
    decreases rows.len(),
{
    if rows.len() > 0 {
        let d = rows.drop_last();
        assert forall|i: int| 0 <= i < d.len() implies (#[trigger] d[i]).kind@ == kind by {
            assert(d[i] == rows[i]);
        }
        lemma_kind_segment(d, kind, k1, k2);
        assert(rows.last() == rows[rows.len() - 1]);
        if kind == k1 || kind == k2 {
            assert forall|i: int| 0 <= i < rows.len() implies #[trigger] images_of_kind(rows, k1, k2)[i]
                == rows[i].image by {
                if i < rows.len() - 1 {
                    assert(images_of_kind(d, k1, k2)[i] == d[i].image);
                }
            }
        }
    }
}

/// The rows written for one list, filtered by their own kind, give back the
/// list's images that have a file path.
proof fn lemma_rows_read_back(rows: Seq<ImageRow>, list: Seq<Image>, kind: Seq<char>, k1: Seq<char>, k2: Seq<char>)
    requires
        is_rows_of(rows, list, kind),
    ensures
        (kind == k1 || kind == k2) ==> images_of_kind(rows, k1, k2) == with_path(list),
        (kind != k1 && kind != k2) ==> images_of_kind(rows, k1, k2) == Seq::<Image>::empty(),
{
    lemma_kind_segment(rows, kind, k1, k2);
    if kind == k1 || kind == k2 {
        assert(images_of_kind(rows, k1, k2) =~= with_path(list));
    } else {
        assert(images_of_kind(rows, k1, k2) =~= Seq::<Image>::empty());
    }
}

/// Reading back an image set gives, for each of backdrops, posters (profiles
/// for a person) and logos, exactly the images written for it that have a
/// file path, in the order they were written.
pub proof fn law_images_read_back(
    owner: ImageOwner,
    backdrops: Seq<Image>,
    posters: Seq<Image>,
    logos: Seq<Image>,
    rows: Seq<ImageRow>,
)
    requires
        ({
            let nb = with_path(backdrops).len() as int;
            let np = with_path(posters).len() as int;
            &&& nb + np <= rows.len()
            &&& is_rows_of(rows.subrange(0, nb), backdrops, "backdrop"@)
            &&& is_rows_of(rows.subrange(nb, nb + np), posters, poster_kind(owner))
            &&& is_rows_of(rows.skip(nb + np), logos, "logo"@)
        }),
    ensures
        images_of_kind(rows, "backdrop"@, "backdrop"@) == with_path(backdrops),
        images_of_kind(rows, "poster"@, "profile"@) == with_path(posters),
        images_of_kind(rows, "logo"@, "logo"@) == with_path(logos),
{
    reveal_strlit("backdrop");
    reveal_strlit("poster");
    reveal_strlit("profile");
    reveal_strlit("logo");
    let nb = with_path(backdrops).len() as int;
    let np = with_path(posters).len() as int;
    let a = rows.subrange(0, nb);
    let b = rows.subrange(nb, nb + np);
    let c = rows.skip(nb + np);
    assert(rows =~= a + b + c);
    assert("backdrop"@ != "poster"@ && "backdrop"@ != "profile"@ && "backdrop"@ != "logo"@) by {
        assert("backdrop"@[0] != "poster"@[0]);
        assert("backdrop"@[0] != "profile"@[0]);
        assert("backdrop"@[0] != "logo"@[0]);
    }
    assert("logo"@ != "poster"@ && "logo"@ != "profile"@) by {
        assert("logo"@[0] != "poster"@[0]);
        assert("logo"@[0] != "profile"@[0]);
    }
    let pk = poster_kind(owner);
    assert(pk == "poster"@ || pk == "profile"@);
    lemma_kind_concat(a + b, c, "backdrop"@, "backdrop"@);
    lemma_kind_concat(a, b, "backdrop"@, "backdrop"@);
    lemma_kind_concat(a + b, c, "poster"@, "profile"@);
    lemma_kind_concat(a, b, "poster"@, "profile"@);
    lemma_kind_concat(a + b, c, "logo"@, "logo"@);
    lemma_kind_concat(a, b, "logo"@, "logo"@);
    lemma_rows_read_back(a, backdrops, "backdrop"@, "backdrop"@, "backdrop"@);
    lemma_rows_read_back(b, posters, pk, "backdrop"@, "backdrop"@);
    lemma_rows_read_back(c, logos, "logo"@, "backdrop"@, "backdrop"@);
    lemma_rows_read_back(a, backdrops, "backdrop"@, "poster"@, "profile"@);
    lemma_rows_read_back(b, posters, pk, "poster"@, "profile"@);
    lemma_rows_read_back(c, logos, "logo"@, "poster"@, "profile"@);
    lemma_rows_read_back(a, backdrops, "backdrop"@, "logo"@, "logo"@);
    lemma_rows_read_back(b, posters, pk, "logo"@, "logo"@);
    lemma_rows_read_back(c, logos, "logo"@, "logo"@, "logo"@);
    assert(images_of_kind(rows, "backdrop"@, "backdrop"@) =~= with_path(backdrops));
    assert(images_of_kind(rows, "poster"@, "profile"@) =~= with_path(posters));
    assert(images_of_kind(rows, "logo"@, "logo"@) =~= with_path(logos));
}

} // verus!
