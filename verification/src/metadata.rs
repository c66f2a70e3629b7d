//! What is known of an uploaded song before it is added: the tags found in
//! its bytes, and how they are combined with what a music database says.
//!
//! The tags are read by `lofty`. The music database is asked by the caller:
//! this module says which search comes next and what a result leads to.

use vstd::prelude::*;
use lofty::file::TaggedFileExt;
use lofty::tag::Accessor;
use crate::json::{json_string, json_strings, json_text, strings_text};
use crate::response::{
    plain, text_response, with_header, BodyView, Response, ResponseView, BAD_REQUEST, OK,
};
use crate::text::texts;
use crate::upload::{decode_upload, decoded_upload};

verus! {

/// The view of an optional string.
pub open spec fn optional_text(text: Option<String>) -> Option<Seq<char>> {
    match text {
        Some(s) => Some(s@),
        None => None,
    }
}

/// The view of what the tag reader returns.
pub open spec fn tags_view(
    tags: Result<Option<(Option<String>, Option<String>, Option<String>)>, String>,
) -> Result<Option<(Option<Seq<char>>, Option<Seq<char>>, Option<Seq<char>>)>, Seq<char>> {
    match tags {
        Ok(Some((title, artist, album))) => Ok(
            Some((optional_text(title), optional_text(artist), optional_text(album))),
        ),
        Ok(None) => Ok(None),
        Err(error) => Err(error@),
    }
}

/// Reads the primary tag of an audio file held in memory, with `lofty`:
/// `Probe::guess_file_type`, `Probe::read`, `TaggedFileExt::primary_tag` and
/// the accessors `title`, `artist` and `album`. It returns title, artist and
/// album of the primary tag, `None` where the file has no primary tag, and
/// the debug text of `lofty`'s error where it cannot tell or read the kind
/// of file.
///
/// Nothing is claimed of the outcome. It is not decided by the bytes alone:
/// `lofty` also goes by the options set for the calling thread, by the file
/// kinds registered for the process, and by whether its buffers could be
/// allocated. Whether `lofty` returns at all on bytes that are not a sound
/// file of a kind it knows rests on `lofty`: its documentation lists such
/// bytes among the errors of `Probe::read`.
#[verifier::external_body]
pub(crate) fn read_tags(data: &[u8]) -> (tags: Result<
    Option<(Option<String>, Option<String>, Option<String>)>,
    String,
>)
{
    let probe = lofty::probe::Probe::new(std::io::Cursor::new(data))
        .guess_file_type()
        .map_err(|e| format!("{e:?}"))?;
    let file = probe.read().map_err(|e| format!("{e:?}"))?;
    Ok(file.primary_tag().map(|t| {
        (t.title().map(String::from), t.artist().map(String::from), t.album().map(String::from))
    }))
}

/// The tags of a song that has a title.
#[derive(Debug, PartialEq, Eq)]
pub struct Tag {
    pub title: String,
    pub artist: Option<String>,
    pub album: Option<String>,
}

/// A recording as the music database describes it.
#[derive(Debug, PartialEq, Eq)]
pub struct RecordingInfo {
    pub title: String,
    /// The names of the credited artists, where the database gives credits.
    pub artist_credit: Option<Vec<String>>,
    /// The names of the genres, where the database gives genres.
    pub genres: Option<Vec<String>>,
    /// The title of the first release that the database lists, if any.
    pub first_release: Option<String>,
}

/// A release group as the music database describes it.
#[derive(Debug, PartialEq, Eq)]
pub struct ReleaseGroupInfo {
    pub id: String,
    pub title: String,
}

/// What is told to the client of a probed song.
#[derive(Debug, PartialEq, Eq)]
pub struct ProbeSongResponse {
    pub title: Option<String>,
    pub artists: Vec<String>,
    pub album: Option<String>,
    pub genres: Vec<String>,
}

/// The tags of a song, or why it has none that can be used: the reader's
/// error, `No tags found` for a file without a primary tag, `No title found`
/// for a tag without a title.
pub open spec fn usable_tags(
    probed: Result<Option<(Option<Seq<char>>, Option<Seq<char>>, Option<Seq<char>>)>, Seq<char>>,
) -> Result<(Seq<char>, Option<Seq<char>>, Option<Seq<char>>), Seq<char>> {
    match probed {
        Err(error) => Err(error),
        Ok(None) => Err("No tags found"@),
        Ok(Some((None, _, _))) => Err("No title found"@),
        Ok(Some((Some(title), artist, album))) => Ok((title, artist, album)),
    }
}

/// The view of a tag.
pub open spec fn tag_view(tag: Tag) -> (Seq<char>, Option<Seq<char>>, Option<Seq<char>>) {
    (tag.title@, optional_text(tag.artist), optional_text(tag.album))
}

/// Sorts out what the tag reader returned.
pub fn tags_from(
    probed: Result<Option<(Option<String>, Option<String>, Option<String>)>, String>,
) -> (tag: Result<Tag, String>)
    ensures
        match tag {
            Ok(found) => usable_tags(tags_view(probed)) == Ok::<
                (Seq<char>, Option<Seq<char>>, Option<Seq<char>>),
                Seq<char>,
            >(tag_view(found)),
            Err(error) => usable_tags(tags_view(probed)) == Err::<
                (Seq<char>, Option<Seq<char>>, Option<Seq<char>>),
                Seq<char>,
            >(error@),
        },
{
    match probed {
        Err(error) => Err(error),
        Ok(None) => Err("No tags found".to_owned()),
        Ok(Some((None, _, _))) => Err("No title found".to_owned()),
        Ok(Some((Some(title), artist, album))) => Ok(Tag { title, artist, album }),
    }
}

/// What a probe answers once the tag reader has returned: the tags of the
/// song, or the response that refuses song data without usable tags, with
/// the reason as the notice.
pub open spec fn probe_outcome(
    probed: Result<Option<(Option<Seq<char>>, Option<Seq<char>>, Option<Seq<char>>)>, Seq<char>>,
) -> Result<(Seq<char>, Option<Seq<char>>, Option<Seq<char>>), ResponseView> {
    match usable_tags(probed) {
        Ok(tag) => Ok(tag),
        Err(error) => Err(text_response(BAD_REQUEST, None, error)),
    }
}

/// Turns what the tag reader returned into the tags of the song or the
/// response that refuses it.
pub fn tags_or_refusal(
    probed: Result<Option<(Option<String>, Option<String>, Option<String>)>, String>,
) -> (tag: Result<Tag, Response>)
    ensures
        match tag {
            Ok(found) => probe_outcome(tags_view(probed)) == Ok::<
                (Seq<char>, Option<Seq<char>>, Option<Seq<char>>),
                ResponseView,
            >(tag_view(found)),
            Err(response) => probe_outcome(tags_view(probed)) == Err::<
                (Seq<char>, Option<Seq<char>>, Option<Seq<char>>),
                ResponseView,
            >(response@),
        },
{
    match tags_from(probed) {
        Ok(tag) => Ok(tag),
        Err(error) => Err(plain(BAD_REQUEST, error)),
    }
}

/// The first round of a probe: decodes the song data and reads its tags.
///
/// Song data that is too long or not base64 is refused as an upload is,
/// and only such song data is refused before the tag reader is asked.
/// Otherwise the tag reader decides: the answer is the tags of the song, or
/// a bad request with a notice and no header; [`tags_or_refusal`] says
/// which, for each thing that the reader can return.
pub fn probe(song_data_base64: &str) -> (tag: Result<Tag, Response>)
    ensures
        decoded_upload(song_data_base64@) matches Err(refused) ==> {
            &&& tag matches Err(response)
            &&& response@ == refused
        },
        decoded_upload(song_data_base64@) is Ok ==> (tag matches Err(response) ==> {
            &&& response@.body matches BodyView::Text(notice)
            &&& response@ == text_response(BAD_REQUEST, None, notice)
        }),
{
    let data = match decode_upload(song_data_base64) {
        Ok(data) => data,
        Err(response) => {
            return Err(response);
        },
    };
    tags_or_refusal(read_tags(data.as_slice()))
}

/// A search of the music database.
#[derive(Debug, PartialEq, Eq)]
pub enum Search {
    /// Release groups with the given name by the given artist.
    ReleaseGroup { release_group: String, artist: String },
    /// Recordings with the given name, with their genres; by the artist
    /// `by` and in the release group with the identifier `rgid`, where
    /// these are given.
    Recording { recording: String, by: Option<String>, rgid: Option<String> },
}

/// Where a lookup stands.
#[derive(Debug, PartialEq, Eq)]
pub enum Lookup {
    /// Release groups are being searched for the song of the given title
    /// and artist.
    ReleaseGroups { title: String, artist: String },
    /// Recordings are being searched, within the release group if one was
    /// found.
    Recordings { release_group: Option<ReleaseGroupInfo> },
    /// The lookup is over.
    Done,
}

/// What comes next in a lookup.
#[derive(Debug, PartialEq, Eq)]
pub enum Step {
    /// The caller is to run the search and report its result.
    Search(Search),
    /// The lookup is over, with the recording found and the release group
    /// it was found in, or with nothing.
    Done(Option<(RecordingInfo, Option<ReleaseGroupInfo>)>),
}

/// The result of a search.
#[derive(Debug, PartialEq, Eq)]
pub enum SearchResult {
    /// The search could not be run.
    Failed,
    /// The first release group found, if any was.
    ReleaseGroup(Option<ReleaseGroupInfo>),
    /// The first recording found, if any was.
    Recording(Option<RecordingInfo>),
}

/// How a lookup begins. Where artist and album are known, the release
/// group of the album is searched first. Otherwise the recording is
/// searched at once, by the artist where the artist is known.
pub open spec fn started(title: String, artist: Option<String>, album: Option<String>) -> (
    Lookup,
    Step,
) {
    match (artist, album) {
        (Some(by), Some(on)) => (
            Lookup::ReleaseGroups { title, artist: by },
            Step::Search(Search::ReleaseGroup { release_group: on, artist: by }),
        ),
        _ => (
            Lookup::Recordings { release_group: None },
            Step::Search(Search::Recording { recording: title, by: artist, rgid: None }),
        ),
    }
}

/// How a lookup goes on after a search.
///
/// A release group that was found narrows the search for the recording; if
/// none was found, the recording is searched without the album. The first
/// recording found ends the lookup with success. A search that failed, a
/// recording search that found nothing, and a result that does not answer
/// the search that was asked for end the lookup with nothing.
pub open spec fn advanced(state: Lookup, result: SearchResult) -> (Lookup, Step) {
    match (state, result) {
        (Lookup::ReleaseGroups { title, artist }, SearchResult::ReleaseGroup(Some(group))) => (
            Lookup::Recordings { release_group: Some(group) },
            Step::Search(
                Search::Recording { recording: title, by: Some(artist), rgid: Some(group.id) },
            ),
        ),
        (Lookup::ReleaseGroups { title, artist }, SearchResult::ReleaseGroup(None)) => (
            Lookup::Recordings { release_group: None },
            Step::Search(Search::Recording { recording: title, by: Some(artist), rgid: None }),
        ),
        (Lookup::Recordings { release_group }, SearchResult::Recording(Some(recording))) => (
            Lookup::Done,
            Step::Done(Some((recording, release_group))),
        ),
        _ => (Lookup::Done, Step::Done(None)),
    }
}

/// Begins the lookup of a song in the music database.
pub fn get_musicbrainz_metadata(title: String, artist: Option<String>, album: Option<String>) -> (out:
    (Lookup, Step))
    ensures
        out == started(title, artist, album),
{
    match (artist, album) {
        (Some(by), Some(on)) => {
            let search = Search::ReleaseGroup { release_group: on, artist: by.clone() };
            (Lookup::ReleaseGroups { title, artist: by }, Step::Search(search))
        },
        (artist, _) => (
            Lookup::Recordings { release_group: None },
            Step::Search(Search::Recording { recording: title, by: artist, rgid: None }),
        ),
    }
}

/// Takes a lookup one step further with the result of the search that was
/// asked for.
pub fn advance(state: Lookup, result: SearchResult) -> (out: (Lookup, Step))
    ensures
        out == advanced(state, result),
{
    match (state, result) {
        (Lookup::ReleaseGroups { title, artist }, SearchResult::ReleaseGroup(Some(group))) => {
            let search = Search::Recording {
                recording: title,
                by: Some(artist),
                rgid: Some(group.id.clone()),
            };
            (Lookup::Recordings { release_group: Some(group) }, Step::Search(search))
        },
        (Lookup::ReleaseGroups { title, artist }, SearchResult::ReleaseGroup(None)) => (
            Lookup::Recordings { release_group: None },
            Step::Search(Search::Recording { recording: title, by: Some(artist), rgid: None }),
        ),
        (Lookup::Recordings { release_group }, SearchResult::Recording(Some(recording))) => (
            Lookup::Done,
            Step::Done(Some((recording, release_group))),
        ),
        _ => (Lookup::Done, Step::Done(None)),
    }
}

/// The artists told of a song: the credited artists where the database
/// gives credits, else the artist of the tag, if it names one.
pub open spec fn told_artists(tag: Tag, found: Option<(RecordingInfo, Option<ReleaseGroupInfo>)>) -> Seq<
    String,
> {
    match found {
        Some((RecordingInfo { artist_credit: Some(names), .. }, _)) => names@,
        _ => match tag.artist {
            Some(artist) => seq![artist],
            None => Seq::empty(),
        },
    }
}

/// The album told of a song: the title of the release group where one was
/// found; else the album of the tag; else, where a recording was found, the
/// title of its first release.
pub open spec fn told_album(tag: Tag, found: Option<(RecordingInfo, Option<ReleaseGroupInfo>)>) -> Option<
    String,
> {
    match found {
        Some((_, Some(group))) => Some(group.title),
        Some((recording, None)) => match tag.album {
            Some(album) => Some(album),
            None => recording.first_release,
        },
        None => tag.album,
    }
}

/// The title told of a song: the title of the recording where one was
/// found, else the title of the tag.
pub open spec fn told_title(tag: Tag, found: Option<(RecordingInfo, Option<ReleaseGroupInfo>)>) -> String {
    match found {
        Some((recording, _)) => recording.title,
        None => tag.title,
    }
}

/// The genres told of a song: those of the recording where one was found
/// and the database gives genres, else none.
pub open spec fn told_genres(found: Option<(RecordingInfo, Option<ReleaseGroupInfo>)>) -> Seq<String> {
    match found {
        Some((RecordingInfo { genres: Some(names), .. }, _)) => names@,
        _ => Seq::empty(),
    }
}

/// Combines the tags of a song with what the lookup found.
pub fn get_metadata(tag: Tag, found: Option<(RecordingInfo, Option<ReleaseGroupInfo>)>) -> (told:
    ProbeSongResponse)
    ensures
        told.title == Some(told_title(tag, found)),
        told.artists@ == told_artists(tag, found),
        told.album == told_album(tag, found),
        told.genres@ == told_genres(found),
{
    let Tag { title, artist, album } = tag;
    match found {
        Some((recording, group)) => {
            let RecordingInfo { title: name, artist_credit, genres, first_release } = recording;
            let album = match group {
                Some(group) => Some(group.title),
                None => match album {
                    Some(album) => Some(album),
                    None => first_release,
                },
            };
            let artists = match artist_credit {
                Some(names) => names,
                None => one_or_none(artist),
            };
            let genres = match genres {
                Some(names) => names,
                None => Vec::new(),
            };
            ProbeSongResponse { title: Some(name), artists, album, genres }
        },
        None => ProbeSongResponse {
            title: Some(title),
            artists: one_or_none(artist),
            album,
            genres: Vec::new(),
        },
    }
}

/// The list that holds `item`, or the empty list where there is none.
fn one_or_none(item: Option<String>) -> (list: Vec<String>)
    ensures
        list@ == match item {
            Some(s) => seq![s],
            None => Seq::<String>::empty(),
        },
{
    let mut list: Vec<String> = Vec::new();
    match item {
        Some(s) => {
            list.push(s);
        },
        None => {},
    }
    list
}

/// The JSON of an optional string: a string literal, or `null`.
pub open spec fn json_optional(text: Option<Seq<char>>) -> Seq<char> {
    match text {
        Some(s) => json_text(s),
        None => "null"@,
    }
}

/// The JSON object that tells a client of a probed song: its fields in the
/// order title, artists, album, genres.
pub open spec fn probe_json(
    title: Option<Seq<char>>,
    artists: Seq<Seq<char>>,
    album: Option<Seq<char>>,
    genres: Seq<Seq<char>>,
) -> Seq<char> {
    "{\"title\":"@ + json_optional(title) + ",\"artists\":"@ + json_strings(artists)
        + ",\"album\":"@ + json_optional(album) + ",\"genres\":"@ + json_strings(genres) + "}"@
}

/// Writes an optional string as JSON.
fn optional_json(text: &Option<String>) -> (json: String)
    ensures
        json@ == json_optional(optional_text(*text)),
{
    match text {
        Some(s) => json_string(s.as_str()),
        None => "null".to_owned(),
    }
}

/// The response that tells a client of a probed song.
pub open spec fn told_response(told: ProbeSongResponse) -> ResponseView {
    text_response(
        OK,
        Some(("Content-Type"@, "application/json"@)),
        probe_json(
            optional_text(told.title),
            texts(told.artists@),
            optional_text(told.album),
            texts(told.genres@),
        ),
    )
}

/// The last round of a probe: the response that tells the client what is
/// known of the song.
pub fn probe_response(told: &ProbeSongResponse) -> (response: Response)
    ensures
        response@ == told_response(*told),
{
    let mut json = String::new();
    json.push_str("{\"title\":");
    json.push_str(optional_json(&told.title).as_str());
    json.push_str(",\"artists\":");
    json.push_str(strings_text(&told.artists).as_str());
    json.push_str(",\"album\":");
    json.push_str(optional_json(&told.album).as_str());
    json.push_str(",\"genres\":");
    json.push_str(strings_text(&told.genres).as_str());
    json.push_str("}");
    with_header(OK, "Content-Type", "application/json", json)
}

} // verus!
