//! What the server answers for paths no route claims.

use vstd::prelude::*;
use vstd::string::*;

use crate::error::AppError;
use crate::text::concat;

verus! {

/// Whether a path lies under the JSON API.
pub open spec fn is_api_path_spec(path: Seq<char>) -> bool {
    path.len() >= 5 && path.take(5) == "/api/"@
}

/// Whether a path lies under the JSON API.
pub fn is_api_path(path: &str) -> (r: bool)
    ensures
        r == is_api_path_spec(path@),
{
    proof {
        reveal_strlit("/api/");
    }
    if path.unicode_len() < 5 {
        return false;
    }
    let head = path.substring_char(0, 5);
    let r = head.get_char(0) == '/' && head.get_char(1) == 'a' && head.get_char(2) == 'p' && head.get_char(3)
        == 'i' && head.get_char(4) == '/';
    proof {
        assert(head@ == path@.take(5));
        if r {
            assert(path@.take(5) =~= "/api/"@);
        }
    }
    r
}

/// An unclaimed path: under the API it fails as JSON (not found), so a
/// mistyped endpoint is never mistaken for the UI document; any other path is
/// answered with the UI document (`None`).
pub fn unclaimed(path: &str) -> (r: Option<AppError>)
    ensures
        is_api_path_spec(path@) ==> (r matches Some(AppError::NotFound(m)) && m@ == "endpoint "@ + path@),
        !is_api_path_spec(path@) ==> r is None,
{
    if is_api_path(path) {
        Some(AppError::NotFound(concat("endpoint ", path)))
    } else {
        None
    }
}

} // verus!
