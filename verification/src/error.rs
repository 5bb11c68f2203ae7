//! The library's error type and the HTTP status each error maps to.

use vstd::prelude::*;

verus! {

/// Why a request or a startup step failed.
///
/// Failures that originate in an outside service (the TMDB HTTP API, the
/// database, the filesystem) carry that service's message as text.
#[derive(Debug)]
pub enum AppError {
    /// A required setting is missing or malformed.
    Config(String),
    /// The named thing does not exist.
    NotFound(String),
    /// The caller sent something that cannot be served.
    BadRequest(String),
    /// TMDB answered, but with a non-success status.
    TmdbStatus { status: u16, body: String },
    /// TMDB could not be reached or its answer could not be read.
    Tmdb(String),
    Database(String),
    Migrate(String),
    Io(String),
    Internal(String),
}

/// The HTTP status an error is answered with.
pub open spec fn status_of(e: AppError) -> u16 {
    match e {
        AppError::NotFound(_) => 404,
        AppError::BadRequest(_) => 400,
        // A 404 from TMDB means the thing does not exist upstream either.
        AppError::TmdbStatus { status, .. } => if status == 404 {
            404
        } else {
            502
        },
        AppError::Tmdb(_) => 502,
        _ => 500,
    }
}

impl AppError {
    pub fn status(&self) -> (r: u16)
        ensures
            r == status_of(*self),
    {
        match self {
            AppError::NotFound(_) => 404,
            AppError::BadRequest(_) => 400,
            AppError::TmdbStatus { status, .. } => if *status == 404 {
                404
            } else {
                502
            },
            AppError::Tmdb(_) => 502,
            _ => 500,
        }
    }
}

} // verus!
