//! Query and body shapes of the HTTP surface, with the defaults they apply.

use vstd::prelude::*;

verus! {

/// `?refresh=true` forces a re-fetch from TMDB.
#[derive(Debug)]
pub struct RefreshQuery {
    pub refresh: Option<bool>,
}

impl Default for RefreshQuery {
    fn default() -> (r: Self)
        ensures
            r.refresh is None,
    {
        RefreshQuery {
            refresh: None,
        }
    }
}

impl RefreshQuery {
    pub fn refresh(&self) -> (r: bool)
        ensures
            r == (self.refresh == Some(true)),
    {
        match self.refresh {
            Some(b) => b,
            None => false,
        }
    }
}

/// `?refresh` plus `?loadDetails`, used by the movie and TV show endpoints.
#[derive(Debug)]
pub struct DetailQuery {
    pub refresh: Option<bool>,
    pub load_details: Option<bool>,
}

impl Default for DetailQuery {
    fn default() -> (r: Self)
        ensures
            r.refresh is None,
            r.load_details is None,
    {
        DetailQuery {
            refresh: None,
            load_details: None,
        }
    }
}

impl DetailQuery {
    pub fn refresh(&self) -> (r: bool)
        ensures
            r == (self.refresh == Some(true)),
    {
        match self.refresh {
            Some(b) => b,
            None => false,
        }
    }

    pub fn load_details(&self) -> (r: bool)
        ensures
            r == (self.load_details == Some(true)),
    {
        match self.load_details {
            Some(b) => b,
            None => false,
        }
    }
}

/// `?tag=` with `?not=true` to invert the match.
#[derive(Debug)]
pub struct TagQuery {
    pub tag: Option<String>,
    pub not: Option<bool>,
}

impl Default for TagQuery {
    fn default() -> (r: Self)
        ensures
            r.tag is None,
            r.not is None,
    {
        TagQuery {
            tag: None,
            not: None,
        }
    }
}

impl TagQuery {
    pub fn negate(&self) -> (r: bool)
        ensures
            r == (self.not == Some(true)),
    {
        match self.not {
            Some(b) => b,
            None => false,
        }
    }
}

#[derive(Debug)]
pub struct LimitQuery {
    pub limit: Option<i64>,
}

impl Default for LimitQuery {
    fn default() -> (r: Self)
        ensures
            r.limit is None,
    {
        LimitQuery {
            limit: None,
        }
    }
}

#[derive(Debug)]
pub struct SearchQuery {
    pub query: String,
}

#[derive(Debug)]
pub struct ImageQuery {
    pub image_path: String,
    pub backdrop_size: Option<String>,
}

/// Body of the bulk "season watched" patch.
#[derive(Debug)]
pub struct WatchedBody {
    pub watched: bool,
}

} // verus!
