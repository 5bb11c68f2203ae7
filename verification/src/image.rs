//! Guards for the on-disk image cache: which TMDB image paths and size tokens
//! may be turned into cache file names, and what content type a file is served
//! with.

use vstd::prelude::*;
use vstd::string::*;

use crate::error::AppError;
use crate::text::{
    ascii_lower_spec, contains_char, contains_pair, has_pair, strip_leading, strip_leading_spec,
    concat, decimal, decimal_text, to_ascii_lowercase, to_owned, trim, trim_spec,
};

verus! {

/// What `format!("{:?}", s)` renders a string as.
pub uninterp spec fn debug_quoted(s: Seq<char>) -> Seq<char>;

/// Renders `s` the way `Debug` for `str` does (quoted and escaped).
#[verifier::external_body]
fn debug_str(s: &str) -> (r: String)
    ensures
        r@ == debug_quoted(s@),
{
    format!("{s:?}")
}

/// The first media type `mime_guess` associates with the extension of `path`.
pub uninterp spec fn mime_guess_first(path: Seq<char>) -> Option<Seq<char>>;

/// Calls `mime_guess::from_path(path).first_raw()`: the first media type of the
/// crate's table for the path's extension, or `None` when the extension is
/// missing or unknown. The result is named, not stated.
#[verifier::external_body]
fn guess_mime(path: &str) -> (r: Option<String>)
    ensures
        r is Some <==> mime_guess_first(path@) is Some,
        r matches Some(m) ==> m@ == mime_guess_first(path@)->0,
{
    mime_guess::from_path(path).first_raw().map(|m| m.to_string())
}

/// Served when the caller does not pick a size.
pub open spec fn default_size() -> Seq<char> {
    seq!['o', 'r', 'i', 'g', 'i', 'n', 'a', 'l']
}

pub open spec fn is_ascii_alnum(c: char) -> bool {
    ||| '0' <= c <= '9'
    ||| 'a' <= c <= 'z'
    ||| 'A' <= c <= 'Z'
}

/// Characters a cached file name may hold.
pub open spec fn filename_char_ok(c: char) -> bool {
    is_ascii_alnum(c) || c == '.' || c == '_' || c == '-'
}

/// The image path reduced to what would become the file name.
pub open spec fn filename_candidate(image_path: Seq<char>) -> Seq<char> {
    strip_leading_spec(trim_spec(image_path), '/')
}

/// Index of the last `c` in `s`, or -1.
pub open spec fn last_index_of(s: Seq<char>, c: char) -> int
    decreases s.len(),
{
    if s.len() == 0 {
        -1
    } else if s.last() == c {
        s.len() - 1
    } else {
        last_index_of(s.drop_last(), c)
    }
}

/// `Path::extension` of a single-component name: the text after the last dot,
/// unless there is no dot or the only dot leads the name.
pub open spec fn extension_spec(name: Seq<char>) -> Option<Seq<char>> {
    let i = last_index_of(name, '.');
    if i <= 0 {
        None
    } else {
        Some(name.subrange(i + 1, name.len() as int))
    }
}

/// Extensions TMDB serves artwork in.
pub open spec fn allowed_extension(e: Seq<char>) -> bool {
    ||| e == seq!['j', 'p', 'g']
    ||| e == seq!['j', 'p', 'e', 'g']
    ||| e == seq!['p', 'n', 'g']
    ||| e == seq!['s', 'v', 'g']
}

/// The lower-cased extension, or the empty text when there is none.
pub open spec fn lowered_extension(name: Seq<char>) -> Seq<char> {
    match extension_spec(name) {
        Some(e) => ascii_lower_spec(e),
        None => Seq::empty(),
    }
}

/// Every rule a cached file name must pass.
pub open spec fn filename_acceptable(c: Seq<char>) -> bool {
    &&& c.len() > 0
    &&& !c.contains('/')
    &&& !c.contains('\\')
    &&& !has_pair(c, '.', '.')
    &&& forall|i: int| 0 <= i < c.len() ==> filename_char_ok(#[trigger] c[i])
    &&& allowed_extension(lowered_extension(c))
}

fn is_filename_char(c: char) -> (r: bool)
    ensures
        r == filename_char_ok(c),
{
    ('0' <= c && c <= '9') || ('a' <= c && c <= 'z') || ('A' <= c && c <= 'Z') || c == '.' || c
        == '_' || c == '-'
}

proof fn lemma_last_index_of_at(s: Seq<char>, c: char, k: int)
    requires
        -1 <= k < s.len(),
        k >= 0 ==> s[k] == c,
        forall|j: int| k < j < s.len() ==> s[j] != c,
    ensures
        last_index_of(s, c) == k,
    decreases s.len(),
{
    if s.len() > 0 && k < s.len() - 1 {
        let t = s.drop_last();
        assert forall|j: int| k < j < t.len() implies t[j] != c by {
            assert(t[j] == s[j]);
        }
        if k >= 0 {
            assert(t[k] == s[k]);
        }
        lemma_last_index_of_at(t, c, k);
    }
}

/// The lower-cased extension of a single-component name (`Path::extension`).
pub(crate) fn lowered_extension_of(name: &str) -> (r: String)
    ensures
        r@ == lowered_extension(name@),
{
    let n = name.unicode_len();
    let mut i: usize = n;
    while i > 0 && name.get_char(i - 1) != '.'
        invariant
            n == name@.len(),
            i <= n,
            forall|j: int| i <= j < n ==> name@[j] != '.',
        decreases i,
    {
        i = i - 1;
    }
    proof {
        lemma_last_index_of_at(name@, '.', i - 1);
    }
    if i <= 1 {
        String::new()
    } else {
        let ext = name.substring_char(i, n);
        to_ascii_lowercase(ext)
    }
}

fn is_allowed_extension(e: &str) -> (r: bool)
    ensures
        r == allowed_extension(e@),
{
    let n = e.unicode_len();
    if n == 3 || n == 4 {
        let c0 = e.get_char(0);
        let c1 = e.get_char(1);
        let c2 = e.get_char(2);
        let c3 = if n == 4 {
            e.get_char(3)
        } else {
            ' '
        };
        proof {
            if n == 3 {
                assert(e@ =~= seq![c0, c1, c2]);
            } else {
                assert(e@ =~= seq![c0, c1, c2, c3]);
            }
        }
        if n == 3 {
            (c0 == 'j' && c1 == 'p' && c2 == 'g') || (c0 == 'p' && c1 == 'n' && c2 == 'g') || (c0
                == 's' && c1 == 'v' && c2 == 'g')
        } else {
            c0 == 'j' && c1 == 'p' && c2 == 'e' && c3 == 'g'
        }
    } else {
        false
    }
}

fn bad_request(prefix: &str, subject: &str) -> (r: AppError)
    ensures
        r matches AppError::BadRequest(m) && m@ == prefix@ + debug_quoted(subject@),
{
    let mut m = String::from_str(prefix);
    let d = debug_str(subject);
    m.append(d.as_str());
    AppError::BadRequest(m)
}

/// Validates a TMDB image path and reduces it to a bare file name.
///
/// TMDB paths are a single segment such as `/abc123.jpg`. A path with a
/// directory separator, a parent reference, an unexpected character or an
/// unexpected extension is rejected rather than sanitised, so no accepted path
/// can leave the cache directory.
pub fn safe_filename(image_path: &str) -> (r: Result<String, AppError>)
    ensures
        ({
            let c = filename_candidate(image_path@);
            match r {
                Ok(name) => name@ == c && filename_acceptable(c),
                Err(AppError::BadRequest(m)) => !filename_acceptable(c) && (if c.len() == 0 {
                    m@ == "imagePath must not be blank"@
                } else if c.contains('/') || c.contains('\\') || has_pair(c, '.', '.') {
                    m@ == "imagePath must be a single filename, got "@ + debug_quoted(
                        image_path@,
                    )
                } else if !(forall|i: int| 0 <= i < c.len() ==> filename_char_ok(#[trigger] c[i])) {
                    m@ == "imagePath contains unsupported characters: "@ + debug_quoted(
                        image_path@,
                    )
                } else {
                    m@ == "unsupported image extension: "@ + debug_quoted(image_path@)
                }),
                Err(_) => false,
            }
        }),
{
    let candidate = strip_leading(trim(image_path), '/');
    let n = candidate.unicode_len();
    if n == 0 {
        return Err(AppError::BadRequest(String::from_str("imagePath must not be blank")));
    }
    if contains_char(candidate, '/') || contains_char(candidate, '\\') || contains_pair(
        candidate,
        '.',
        '.',
    ) {
        return Err(bad_request("imagePath must be a single filename, got ", image_path));
    }
    let mut i: usize = 0;
    while i < n
        invariant
            n == candidate@.len(),
            n > 0,
            candidate@ == filename_candidate(image_path@),
            !candidate@.contains('/'),
            !candidate@.contains('\\'),
            !has_pair(candidate@, '.', '.'),
            i <= n,
            forall|j: int| 0 <= j < i ==> filename_char_ok(#[trigger] candidate@[j]),
        decreases n - i,
    {
        if !is_filename_char(candidate.get_char(i)) {
            assert(!filename_char_ok(candidate@[i as int]));
            return Err(bad_request("imagePath contains unsupported characters: ", image_path));
        }
        i = i + 1;
    }
    let extension = lowered_extension_of(candidate);
    if !is_allowed_extension(extension.as_str()) {
        return Err(bad_request("unsupported image extension: ", image_path));
    }
    Ok(to_owned(candidate))
}

/// Whether `s` is a TMDB width or height token such as `w500` or `h632`.
pub open spec fn dimension_token(s: Seq<char>) -> bool {
    &&& s.len() > 1
    &&& (s[0] == 'w' || s[0] == 'h')
    &&& forall|i: int| 1 <= i < s.len() ==> '0' <= #[trigger] s[i] <= '9'
}

/// Validates a TMDB size token (`original`, `w500`, `h632`, ...). A missing or
/// blank token selects `original`.
pub fn safe_size(size: Option<&str>) -> (r: Result<String, AppError>)
    ensures
        match size {
            None => r matches Ok(s) && s@ == default_size(),
            Some(raw) => {
                let t = trim_spec(raw@);
                if t.len() == 0 {
                    r matches Ok(s) && s@ == default_size()
                } else if t == default_size() || dimension_token(t) {
                    r matches Ok(s) && s@ == t
                } else {
                    r matches Err(AppError::BadRequest(m)) && m@
                        == "backdropSize must be 'original' or like 'w500', got "@ + debug_quoted(t)
                }
            },
        },
{
    proof {
        reveal_strlit("original");
    }
    let raw = match size {
        None => {
            return Ok(String::from_str("original"));
        },
        Some(raw) => raw,
    };
    let t = trim(raw);
    let n = t.unicode_len();
    if n == 0 {
        return Ok(String::from_str("original"));
    }
    let is_original = n == 8 && t.get_char(0) == 'o' && t.get_char(1) == 'r' && t.get_char(2)
        == 'i' && t.get_char(3) == 'g' && t.get_char(4) == 'i' && t.get_char(5) == 'n'
        && t.get_char(6) == 'a' && t.get_char(7) == 'l';
    proof {
        if is_original {
            assert(t@ =~= default_size());
        }
        if t@ == default_size() {
            assert(t@[0] == 'o' && t@[1] == 'r' && t@[2] == 'i' && t@[3] == 'g' && t@[4] == 'i'
                && t@[5] == 'n' && t@[6] == 'a' && t@[7] == 'l');
        }
    }
    if is_original {
        return Ok(to_owned(t));
    }
    let first = t.get_char(0);
    let mut valid = n > 1 && (first == 'w' || first == 'h');
    let mut i: usize = 1;
    while valid && i < n
        invariant
            n == t@.len(),
            1 <= i <= n,
            valid ==> forall|j: int| 1 <= j < i ==> '0' <= #[trigger] t@[j] <= '9',
            valid ==> n > 1 && (t@[0] == 'w' || t@[0] == 'h'),
            !valid ==> !dimension_token(t@),
        decreases n - i,
    {
        let c = t.get_char(i);
        if !('0' <= c && c <= '9') {
            valid = false;
        }
        i = i + 1;
    }
    if !valid {
        return Err(bad_request("backdropSize must be 'original' or like 'w500', got ", t));
    }
    Ok(to_owned(t))
}

/// The media type a cached image file is served with: the guess for its
/// extension, else `image/jpeg`.
pub fn content_type_for(filename: &str) -> (r: String)
    ensures
        r@ == match mime_guess_first(filename@) {
            Some(m) => m,
            None => "image/jpeg"@,
        },
{
    match guess_mime(filename) {
        Some(m) => m,
        None => String::from_str("image/jpeg"),
    }
}

/// An image ready to be served, with the media type to send alongside it.
#[derive(Debug)]
pub struct CachedImage {
    pub bytes: Vec<u8>,
    pub content_type: String,
}

/// A cached copy is served when it has content; a zero-length file is a
/// leftover of an interrupted write and counts as a miss.
pub fn cached_image(bytes: Option<Vec<u8>>, filename: &str) -> (r: Option<CachedImage>)
    ensures
        match bytes {
            Some(b) => if b@.len() > 0 {
                r matches Some(c) && c.bytes@ == b@ && c.content_type@ == match mime_guess_first(filename@) {
                    Some(m) => m,
                    None => "image/jpeg"@,
                }
            } else {
                r is None
            },
            None => r is None,
        },
{
    match bytes {
        Some(b) => if b.len() > 0 {
            Some(CachedImage { content_type: content_type_for(filename), bytes: b })
        } else {
            None
        },
        None => None,
    }
}

/// The name a download is first written under, beside its final name: hidden,
/// and unique to the writing process, so a reader never sees a partial file.
pub fn temp_file_name(filename: &str, process_id: u32) -> (r: String)
    ensures
        r@ == seq!['.'] + filename@ + seq!['.'] + decimal_text(process_id as int) + ".tmp"@,
{
    let mut t = concat(".", filename);
    proof {
        reveal_strlit(".");
    }
    t.append(".");
    let d = decimal(process_id as i64);
    t.append(d.as_str());
    t.append(".tmp");
    t
}

} // verus!
