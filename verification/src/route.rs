//! Which part of the server a request path belongs to.

use vstd::prelude::*;
use vstd::slice::slice_subrange;
use crate::text::{
    chars_of, ends_with, find_first, has_prefix, has_suffix, is_text, split_first, starts_with,
};

verus! {

/// The parts of the server.
#[derive(Clone, Copy, Debug, PartialEq, Eq)]
pub enum Route {
    /// The index page.
    Index,
    /// The site icon.
    Favicon,
    /// The player page of one song.
    AudioPage,
    /// The bytes of one stored file.
    AudioData,
    /// `api/login`
    Login,
    /// `api/updatePassword`
    UpdatePassword,
    /// `api/probeSong`
    ProbeSong,
    /// `api/addSong`
    AddSong,
    /// `api/listSongs`
    ListSongs,
    /// Nothing is served under the path.
    NotFound,
}

/// The part of the server that a path under the first `/` belongs to.
pub open spec fn routed_below(path: Seq<char>) -> Route {
    if starts_with(path, "songs/"@) {
        Route::AudioPage
    } else if starts_with(path, "data/"@) {
        Route::AudioData
    } else if path == "api/login"@ {
        Route::Login
    } else if path == "api/updatePassword"@ {
        Route::UpdatePassword
    } else if path == "api/probeSong"@ {
        Route::ProbeSong
    } else if path == "api/addSong"@ {
        Route::AddSong
    } else if path == "api/listSongs"@ {
        Route::ListSongs
    } else {
        Route::NotFound
    }
}

/// The part of the server that a request path belongs to.
///
/// A path that ends with `/` or with `/index.html` asks for the index page,
/// one that ends with `favicon.ico` for the site icon. Every other path is
/// judged by what follows its first `/`.
pub open spec fn routed(url: Seq<char>) -> Route {
    if ends_with(url, "/"@) || ends_with(url, "/index.html"@) {
        Route::Index
    } else if ends_with(url, "favicon.ico"@) {
        Route::Favicon
    } else {
        match split_first(url, '/') {
            Some((_, path)) => routed_below(path),
            None => Route::NotFound,
        }
    }
}

/// Finds the part of the server that a request path belongs to.
pub fn route(url: &str) -> (found: Route)
    ensures
        found == routed(url@),
{
    let chars = chars_of(url);
    let all = chars.as_slice();
    if has_suffix(all, "/") || has_suffix(all, "/index.html") {
        return Route::Index;
    }
    if has_suffix(all, "favicon.ico") {
        return Route::Favicon;
    }
    let slash = match find_first(all, '/') {
        Some(slash) => slash,
        None => {
            return Route::NotFound;
        },
    };
    assert(slash < all.len());
    let path = slice_subrange(all, slash + 1, all.len());
    if has_prefix(path, "songs/") {
        Route::AudioPage
    } else if has_prefix(path, "data/") {
        Route::AudioData
    } else if is_text(path, "api/login") {
        Route::Login
    } else if is_text(path, "api/updatePassword") {
        Route::UpdatePassword
    } else if is_text(path, "api/probeSong") {
        Route::ProbeSong
    } else if is_text(path, "api/addSong") {
        Route::AddSong
    } else if is_text(path, "api/listSongs") {
        Route::ListSongs
    } else {
        Route::NotFound
    }
}

} // verus!
