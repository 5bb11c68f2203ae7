//! User-supplied wallpapers: which files in the wallpaper directory count,
//! and which names may be served. Only names the directory scan saw are
//! served, which rules out traversal without reasoning about path syntax.

use vstd::prelude::*;
use vstd::string::*;

use crate::error::AppError;
use crate::image::{lowered_extension, lowered_extension_of};
use crate::text::{concat, holds_str, insert_sorted, sorted_strs, str_eq};

verus! {

/// Extensions a wallpaper file may have (any letter case).
pub open spec fn wallpaper_extension(e: Seq<char>) -> bool {
    ||| e == seq!['j', 'p', 'g']
    ||| e == seq!['j', 'p', 'e', 'g']
    ||| e == seq!['p', 'n', 'g']
}

/// Whether a file of the wallpaper directory is a wallpaper.
pub fn is_wallpaper_file(name: &str) -> (r: bool)
    ensures
        r == wallpaper_extension(lowered_extension(name@)),
{
    let e = lowered_extension_of(name);
    proof {
        reveal_strlit("jpg");
        reveal_strlit("jpeg");
        reveal_strlit("png");
        assert("jpg"@ =~= seq!['j', 'p', 'g']);
        assert("jpeg"@ =~= seq!['j', 'p', 'e', 'g']);
        assert("png"@ =~= seq!['p', 'n', 'g']);
    }
    str_eq(e.as_str(), "jpg") || str_eq(e.as_str(), "jpeg") || str_eq(e.as_str(), "png")
}

/// The wallpaper listing from the names found in the directory: the
/// wallpapers among them, as a sorted set.
pub fn scan_wallpapers(names: &Vec<String>) -> (r: Vec<String>)
    ensures
        sorted_strs(r@),
        forall|t: Seq<char>|
            #[trigger] holds_str(r@, t) <==> (wallpaper_extension(lowered_extension(t)) && holds_str(
                names@,
                t,
            )),
{
    let mut out: Vec<String> = Vec::new();
    let mut i: usize = 0;
    while i < names.len()
        invariant
            i <= names@.len(),
            sorted_strs(out@),
            forall|t: Seq<char>|
                #[trigger] holds_str(out@, t) <==> (wallpaper_extension(lowered_extension(t))
                    && holds_str(names@.take(i as int), t)),
        decreases names@.len() - i,
    {
        let ghost before = out@;
        if is_wallpaper_file(names[i].as_str()) {
            insert_sorted(&mut out, names[i].clone());
        }
        proof {
            let t0 = names@.take(i as int);
            let t1 = names@.take(i + 1);
            assert forall|t: Seq<char>| holds_str(t1, t) <==> (holds_str(t0, t) || t == names@[i as int]@) by {
                if holds_str(t1, t) {
                    let k = choose|k: int| 0 <= k < t1.len() && #[trigger] t1[k]@ == t;
                    if k < i {
                        assert(t0[k] == t1[k]);
                    }
                }
                if holds_str(t0, t) {
                    let k = choose|k: int| 0 <= k < t0.len() && #[trigger] t0[k]@ == t;
                    assert(t1[k] == t0[k]);
                }
                if t == names@[i as int]@ {
                    assert(t1[i as int] == names@[i as int]);
                }
            }
        }
        i = i + 1;
    }
    proof {
        assert(names@.take(names@.len() as int) =~= names@);
    }
    out
}

/// Whether a scanned listing (a sorted set) holds `name`.
fn listed(wallpapers: &Vec<String>, name: &str) -> (r: bool)
    ensures
        r == holds_str(wallpapers@, name@),
{
    let mut i: usize = 0;
    while i < wallpapers.len()
        invariant
            i <= wallpapers@.len(),
            forall|k: int| 0 <= k < i ==> (#[trigger] wallpapers@[k])@ != name@,
        decreases wallpapers@.len() - i,
    {
        if str_eq(wallpapers[i].as_str(), name) {
            return true;
        }
        i = i + 1;
    }
    false
}

/// A wallpaper may be served only when the scan listed it; otherwise it is
/// not found.
pub fn check_wallpaper(wallpapers: &Vec<String>, name: &str) -> (r: Result<(), AppError>)
    ensures
        holds_str(wallpapers@, name@) ==> r is Ok,
        !holds_str(wallpapers@, name@) ==> (r matches Err(AppError::NotFound(m)) && m@ == "wallpaper "@
            + name@),
{
    if listed(wallpapers, name) {
        Ok(())
    } else {
        Err(AppError::NotFound(concat("wallpaper ", name)))
    }
}

} // verus!
