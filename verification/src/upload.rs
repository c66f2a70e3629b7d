//! Taking in a new song: checking and decoding what was sent, choosing the
//! name under which the file is stored, and entering the song in the
//! catalog.

use vstd::prelude::*;
use vstd::utf8::encode_utf8;
use petname::Generator;
use crate::auth::{base64_decode, base64_decoded};
use crate::response::{
    plain, refusal, refuse, text_response, Response, ResponseView, BAD_REQUEST, INTERNAL_ERROR,
    OK,
};
use crate::rows::csv_line;
use crate::songs::{song_fields, SongDatabase, SongEntry, SongRecord};
use crate::text::{lemma_split_nonempty, split, split_on, texts};

verus! {

/// Song data of this many bytes of base64 text, or more, is refused.
pub const UPLOAD_LIMIT: usize = 1024 * 1024 * 130;

/// What a client sends to add a song.
#[derive(Debug, PartialEq, Eq)]
pub struct AddSongRequest {
    pub song_data_filename: String,
    pub song_data_base64: String,
    pub title: String,
    pub artists: Vec<String>,
    pub album: String,
    pub genres: Vec<String>,
}

/// What is to be done on the file system for a song that was taken in, and
/// the response that follows it.
#[derive(Debug, PartialEq, Eq)]
pub struct Upload {
    /// The name that was drawn for the file.
    pub name: String,
    /// The path of the file to create.
    pub path: String,
    /// The bytes of that file.
    pub data: Vec<u8>,
    /// The bytes to append to the catalog file.
    pub line: Vec<u8>,
    /// The response to send once both are written.
    pub response: Response,
}

/// The song data that a request carries as base64 text, decoded, or the
/// response that refuses it: text that reaches the upload limit is refused
/// with the limit as the notice, text that is not base64 with the decoder's
/// error as the notice.
pub open spec fn decoded_upload(text: Seq<char>) -> Result<Seq<u8>, ResponseView> {
    if !(encode_utf8(text).len() < UPLOAD_LIMIT) {
        Err(text_response(BAD_REQUEST, None, "r.song_data_base64.len() < 1024 * 1024 * 130"@))
    } else {
        match base64_decoded(encode_utf8(text)) {
            Ok(data) => Ok(data),
            Err(error) => Err(text_response(BAD_REQUEST, None, error)),
        }
    }
}

/// Checks and decodes the song data of a request.
pub fn decode_upload(text: &str) -> (data: Result<Vec<u8>, Response>)
    ensures
        match data {
            Ok(bytes) => decoded_upload(text@) == Ok::<Seq<u8>, ResponseView>(bytes@),
            Err(response) => decoded_upload(text@) == Err::<Seq<u8>, ResponseView>(response@),
        },
{
    let bytes = text.as_bytes();
    if !(bytes.len() < UPLOAD_LIMIT) {
        return Err(plain(BAD_REQUEST, "r.song_data_base64.len() < 1024 * 1024 * 130".to_owned()));
    }
    match base64_decode(bytes) {
        Ok(data) => Ok(data),
        Err(error) => Err(plain(BAD_REQUEST, error)),
    }
}

/// The extension of a file name: what follows its last `.`, or the whole
/// name where it has none.
pub open spec fn extension_of(filename: Seq<char>) -> Seq<char> {
    split_on(filename, '.').last()
}

/// The name under which an uploaded file is stored: the name drawn for it,
/// with the extension of the name it was sent under.
pub open spec fn stored_name(name: Seq<char>, filename: Seq<char>) -> Seq<char> {
    name + seq!['.'] + extension_of(filename)
}

/// The path at which an uploaded file is created.
pub open spec fn stored_path(name: Seq<char>, filename: Seq<char>) -> Seq<char> {
    "./songs/"@ + stored_name(name, filename)
}

/// The catalog entry of an uploaded song.
pub open spec fn uploaded_song(request: AddSongRequest, name: Seq<char>) -> SongRecord {
    SongRecord {
        title: request.title@,
        album: request.album@,
        artists: texts(request.artists@),
        genres: texts(request.genres@),
        song_path: stored_name(name, request.song_data_filename@),
    }
}

/// The value of an upload.
pub struct UploadView {
    pub name: Seq<char>,
    pub path: Seq<char>,
    pub data: Seq<u8>,
    pub line: Seq<u8>,
    pub response: ResponseView,
}

impl View for Upload {
    type V = UploadView;

    open spec fn view(&self) -> UploadView {
        UploadView {
            name: self.name@,
            path: self.path@,
            data: self.data@,
            line: self.line@,
            response: self.response@,
        }
    }
}

/// What taking in `request` with the decoded song data `data` under the
/// drawn name `name` comes to.
pub open spec fn stored(request: AddSongRequest, data: Seq<u8>, name: Seq<char>) -> UploadView {
    UploadView {
        name,
        path: stored_path(name, request.song_data_filename@),
        data,
        line: csv_line(song_fields(uploaded_song(request, name)), crate::songs::FIELD_DELIMITER),
        response: text_response(OK, None, "{}"@),
    }
}

/// The name under which a file sent as `filename` is stored when `name` was
/// drawn for it.
pub fn name_for(name: &str, filename: &str) -> (full: String)
    ensures
        full@ == stored_name(name@, filename@),
{
    let pieces = split(filename, '.');
    proof {
        lemma_split_nonempty(filename@, '.');
    }
    let last = pieces.len() - 1;
    let mut full = name.to_owned();
    full.push('.');
    full.push_str(pieces[last].as_str());
    full
}

/// Enters an uploaded song in the catalog under the drawn name `name`, and
/// says which file is to be created with the decoded song data.
pub fn store_upload(
    songs: &mut SongDatabase,
    request: AddSongRequest,
    data: Vec<u8>,
    name: &str,
) -> (upload: Upload)
    ensures
        upload@ == stored(request, data@, name@),
        final(songs).location() == old(songs).location(),
        final(songs).rows() == old(songs).rows().push(
            Some(song_fields(uploaded_song(request, name@))),
        ),
{
    let song_path = name_for(name, request.song_data_filename.as_str());
    let mut path = "./songs/".to_owned();
    path.push_str(song_path.as_str());
    let song = SongEntry {
        title: request.title,
        album: request.album,
        artists: request.artists,
        genres: request.genres,
        song_path,
    };
    let line = songs.add_song(&song);
    Upload { name: name.to_owned(), path, data, line, response: plain(OK, "{}".to_owned()) }
}

/// The number of words in the name drawn for an uploaded file.
pub const NAME_WORDS: u8 = 7;

/// Draws a name of `words` words joined by `separator` with
/// `petname::Petnames::small().generate` and the thread's random generator.
/// Nothing is claimed of the name; the generator returns `None` where it has
/// no words to draw from.
#[verifier::external_body]
pub(crate) fn random_name(words: u8, separator: &str) -> (name: Option<String>) {
    petname::Petnames::small().generate(&mut rand::thread_rng(), words, separator)
}

/// Takes in a new song.
///
/// A request whose song data is too long or not base64 is refused, and the
/// catalog is left as it was. Otherwise a name of seven words joined by `-`
/// is drawn for the file. Where no name could be drawn the request fails
/// with an internal error and the catalog is left as it was; where one was
/// drawn the song is entered in the catalog under it, and the upload says
/// which name it was.
pub fn add(songs: &mut SongDatabase, request: AddSongRequest) -> (outcome: Result<
    Upload,
    Response,
>)
    ensures
        final(songs).location() == old(songs).location(),
        decoded_upload(request.song_data_base64@) matches Err(refused) ==> {
            &&& outcome matches Err(response)
            &&& response@ == refused
            &&& *final(songs) == *old(songs)
        },
        decoded_upload(request.song_data_base64@) is Ok ==> (outcome matches Err(response) ==> {
            &&& response@ == refusal(INTERNAL_ERROR)
            &&& *final(songs) == *old(songs)
        }),
        decoded_upload(request.song_data_base64@) matches Ok(data) ==> (outcome matches Ok(upload)
            ==> {
            &&& upload@ == stored(request, data, upload.name@)
            &&& final(songs).rows() == old(songs).rows().push(
                Some(song_fields(uploaded_song(request, upload.name@))),
            )
        }),
{
    let data = match decode_upload(request.song_data_base64.as_str()) {
        Ok(data) => data,
        Err(response) => {
            return Err(response);
        },
    };
    match random_name(NAME_WORDS, "-") {
        None => {
            let response = refuse(INTERNAL_ERROR);
            Err(response)
        },
        Some(name) => {
            let upload = store_upload(songs, request, data, name.as_str());
            Ok(upload)
        },
    }
}

} // verus!
