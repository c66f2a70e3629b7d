//! The player page of a song and the listing of the catalog.

use vstd::prelude::*;
use crate::response::{refusal, refuse, text_response, with_header, Response, ResponseView, NOT_FOUND, OK};
use crate::songs::{found, json_songs, listed, SongDatabase, SongEntry, SongRecord};
use crate::text::{split, split_on, texts};

verus! {

/// The text that `url_escape::decode` gives for `text`: every percent
/// escape replaced by the byte that it stands for, and the bytes read as
/// UTF-8 with a replacement character for what is not UTF-8.
pub uninterp spec fn url_decoded(text: Seq<char>) -> Seq<char>;

/// Decodes percent escapes with `url_escape::decode`. The contract names
/// the text that comes out.
#[verifier::external_body]
pub(crate) fn url_decode(text: &str) -> (decoded: String)
    ensures
        decoded@ == url_decoded(text@),
{
    url_escape::decode(text).into_owned()
}

/// The player page of a song: an audio element that plays the stored file
/// of the song.
pub open spec fn audio_page_html(song: SongRecord) -> Seq<char> {
    "<html><audio controls src=\"/data/"@ + song.song_path + "\"></audio>"@
}

/// Writes the player page of a song.
pub fn get_audio_page_html(song: SongEntry) -> (html: String)
    ensures
        html@ == audio_page_html(song@),
{
    let mut html = String::new();
    html.push_str("<html><audio controls src=\"/data/");
    html.push_str(song.song_path.as_str());
    html.push_str("\"></audio>");
    html
}

/// The title that a request path asks for: the third of the pieces that `/`
/// cuts the path into, percent escapes decoded. `/songs/Title/Artist` asks
/// for `Title`.
pub open spec fn title_of(url: Seq<char>) -> Option<Seq<char>> {
    let pieces = split_on(url, '/');
    if pieces.len() > 2 {
        Some(url_decoded(pieces[2]))
    } else {
        None
    }
}

/// The artist that a request path asks for: the fourth piece of the path,
/// percent escapes decoded, or the decoding of the empty text where the path
/// has no fourth piece.
pub open spec fn artist_of(url: Seq<char>) -> Seq<char> {
    let pieces = split_on(url, '/');
    if pieces.len() > 3 {
        url_decoded(pieces[3])
    } else {
        url_decoded(Seq::empty())
    }
}

/// The response to a request for the player page of a song.
///
/// A path without a title is not found. So is a title and artist for which
/// the search of the catalog finds nothing. Otherwise the page of the song
/// found is sent as HTML.
pub open spec fn audio_page(catalog: Seq<Option<Seq<Seq<char>>>>, url: Seq<char>) -> ResponseView {
    match title_of(url) {
        None => refusal(NOT_FOUND),
        Some(title) => match found(catalog, title, artist_of(url)) {
            None => refusal(NOT_FOUND),
            Some(song) => text_response(
                OK,
                Some(("Content-Type"@, "text/html"@)),
                audio_page_html(song),
            ),
        },
    }
}

/// Answers a request for the player page of a song.
pub fn get_audio_page(songs: &SongDatabase, url: &str) -> (response: Response)
    ensures
        response@ == audio_page(songs.rows(), url@),
{
    let pieces = split(url, '/');
    if pieces.len() <= 2 {
        return refuse(NOT_FOUND);
    }
    let title = url_decode(pieces[2].as_str());
    let artist = if pieces.len() > 3 {
        url_decode(pieces[3].as_str())
    } else {
        let nothing = String::new();
        url_decode(nothing.as_str())
    };
    match songs.get_song_by_title_and_artist(title.as_str(), artist.as_str()) {
        None => refuse(NOT_FOUND),
        Some(song) => {
            let html = get_audio_page_html(song);
            with_header(OK, "Content-Type", "text/html", html)
        },
    }
}

/// The response to a request for the listing of the catalog: every song as
/// one JSON array.
pub open spec fn listing(catalog: Seq<Option<Seq<Seq<char>>>>) -> ResponseView {
    text_response(
        OK,
        Some(("Content-Type"@, "application/json"@)),
        json_songs(listed(catalog)),
    )
}

/// Answers a request for the listing of the catalog.
pub fn list(songs: &SongDatabase) -> (response: Response)
    ensures
        response@ == listing(songs.rows()),
{
    let json = songs.get_all_json();
    with_header(OK, "Content-Type", "application/json", json)
}

} // verus!
