//! The song catalog: one record per song, appended and never changed.

use vstd::prelude::*;
use crate::json::{array_text, json_array, json_string, json_strings, json_text, strings_text};
use crate::rows::{csv_line, csv_rows, read_rows, row_view, rows_view, write_row};
use crate::text::{free_of, join, join_with, lemma_join_of_many, lemma_split_join, split, split_on, texts};

verus! {

/// The byte between the fields of a catalog row: GROUP SEPARATOR.
pub const FIELD_DELIMITER: u8 = 0x1D;

/// The character between the items of a list field: UNIT SEPARATOR, the
/// control character U+001F itself and not the glyph that pictures it.
pub const LIST_SEPARATOR: char = '\u{1F}';

/// The number of fields in a catalog row.
pub const SONG_FIELDS: usize = 5;

/// One song of the catalog.
#[derive(Debug, PartialEq, Eq)]
pub struct SongEntry {
    pub title: String,
    pub album: String,
    pub artists: Vec<String>,
    pub genres: Vec<String>,
    pub song_path: String,
}

/// The value of a song.
pub struct SongRecord {
    pub title: Seq<char>,
    pub album: Seq<char>,
    pub artists: Seq<Seq<char>>,
    pub genres: Seq<Seq<char>>,
    pub song_path: Seq<char>,
}

impl View for SongEntry {
    type V = SongRecord;

    open spec fn view(&self) -> SongRecord {
        SongRecord {
            title: self.title@,
            album: self.album@,
            artists: texts(self.artists@),
            genres: texts(self.genres@),
            song_path: self.song_path@,
        }
    }
}

/// The views of a list of songs.
pub open spec fn song_views(songs: Seq<SongEntry>) -> Seq<SongRecord> {
    songs.map_values(|s: SongEntry| s@)
}

/// The items of a list field that may be empty: an empty field is the empty
/// list, any other field is split at the list separator.
pub open spec fn list_of(field: Seq<char>) -> Seq<Seq<char>> {
    if field.len() == 0 {
        Seq::<Seq<char>>::empty()
    } else {
        split_on(field, LIST_SEPARATOR)
    }
}

/// The fields of the row that stores `song`: title, artists, album, genres,
/// path.
pub open spec fn song_fields(song: SongRecord) -> Seq<Seq<char>> {
    seq![
        song.title,
        join_with(song.artists, LIST_SEPARATOR),
        song.album,
        join_with(song.genres, LIST_SEPARATOR),
        song.song_path,
    ]
}

/// The song that a row stores. A malformed row, or a row that does not have
/// exactly five fields, stores none. The artists field always holds at least
/// one artist; the genres field may hold none.
pub open spec fn song_of_row(row: Option<Seq<Seq<char>>>) -> Option<SongRecord> {
    match row {
        Some(fields) => if fields.len() == SONG_FIELDS {
            Some(
                SongRecord {
                    title: fields[0],
                    album: fields[2],
                    artists: split_on(fields[1], LIST_SEPARATOR),
                    genres: list_of(fields[3]),
                    song_path: fields[4],
                },
            )
        } else {
            None
        },
        None => None,
    }
}

/// The songs of `rows` in order, rows that store no song left out.
pub open spec fn listed(rows: Seq<Option<Seq<Seq<char>>>>) -> Seq<SongRecord>
    decreases rows.len(),
{
    if rows.len() == 0 {
        Seq::<SongRecord>::empty()
    } else {
        match song_of_row(rows.last()) {
            Some(song) => listed(rows.drop_last()).push(song),
            None => listed(rows.drop_last()),
        }
    }
}

/// `song` has the given title and counts `artist` among its artists.
pub open spec fn song_matches(song: SongRecord, title: Seq<char>, artist: Seq<char>) -> bool {
    song.title == title && song.artists.contains(artist)
}

/// The first song of `rows` that matches, looking from the first row on. A
/// row that stores no song ends the search with nothing found, whatever
/// comes after it.
pub open spec fn found(
    rows: Seq<Option<Seq<Seq<char>>>>,
    title: Seq<char>,
    artist: Seq<char>,
) -> Option<SongRecord>
    decreases rows.len(),
{
    if rows.len() == 0 {
        None
    } else {
        match song_of_row(rows[0]) {
            None => None,
            Some(song) => if song_matches(song, title, artist) {
                Some(song)
            } else {
                found(rows.skip(1), title, artist)
            },
        }
    }
}

/// The song that `row` stores, if it stores one.
pub fn song_from_row(row: &Option<Vec<String>>) -> (song: Option<SongEntry>)
    ensures
        match song {
            Some(s) => song_of_row(row_view(*row)) == Some(s@),
            None => song_of_row(row_view(*row)).is_none(),
        },
{
    match row {
        Some(fields) => {
            if fields.len() == SONG_FIELDS {
                let genres = if fields[3].as_str().is_empty() {
                    Vec::new()
                } else {
                    split(fields[3].as_str(), LIST_SEPARATOR)
                };
                let song = SongEntry {
                    title: fields[0].clone(),
                    album: fields[2].clone(),
                    artists: split(fields[1].as_str(), LIST_SEPARATOR),
                    genres,
                    song_path: fields[4].clone(),
                };
                proof {
                    let f = texts(fields@);
                    assert(texts(song.genres@) =~= list_of(f[3]));
                }
                Some(song)
            } else {
                None
            }
        },
        None => None,
    }
}

/// Whether `name` is one of `names`.
pub fn contains_text(names: &Vec<String>, name: &String) -> (yes: bool)
    ensures
        yes == texts(names@).contains(name@),
{
    let mut i: usize = 0;
    while i < names.len()
        invariant
            i <= names.len(),
            forall|k: int| 0 <= k < i ==> texts(names@)[k] != name@,
        decreases names.len() - i,
    {
        if names[i] == *name {
            assert(texts(names@)[i as int] == name@);
            return true;
        }
        i += 1;
    }
    false
}

/// The songs of `rows` in order; rows that store no song are passed over.
pub fn list_songs(rows: &Vec<Option<Vec<String>>>) -> (songs: Vec<SongEntry>)
    ensures
        song_views(songs@) == listed(rows_view(rows@)),
{
    let mut songs: Vec<SongEntry> = Vec::new();
    let mut i: usize = 0;
    while i < rows.len()
        invariant
            i <= rows.len(),
            song_views(songs@) == listed(rows_view(rows@).take(i as int)),
        decreases rows.len() - i,
    {
        proof {
            let next = rows_view(rows@).take(i + 1);
            assert(next.drop_last() =~= rows_view(rows@).take(i as int));
        }
        match song_from_row(&rows[i]) {
            Some(song) => {
                songs.push(song);
            },
            None => {},
        }
        i += 1;
    }
    assert(rows_view(rows@).take(i as int) =~= rows_view(rows@));
    songs
}

/// Looks for the first song of `rows` with the given title and artist. The
/// search ends at the first match, and it ends with nothing found at the
/// first row that stores no song.
pub fn find_song(rows: &Vec<Option<Vec<String>>>, title: &str, artist: &str) -> (song: Option<
    SongEntry,
>)
    ensures
        match song {
            Some(s) => found(rows_view(rows@), title@, artist@) == Some(s@),
            None => found(rows_view(rows@), title@, artist@).is_none(),
        },
{
    let wanted_title = title.to_owned();
    let wanted_artist = artist.to_owned();
    let mut i: usize = 0;
    assert(rows_view(rows@).skip(0) =~= rows_view(rows@));
    while i < rows.len()
        invariant
            i <= rows.len(),
            wanted_title@ == title@,
            wanted_artist@ == artist@,
            found(rows_view(rows@), title@, artist@) == found(
                rows_view(rows@).skip(i as int),
                title@,
                artist@,
            ),
        decreases rows.len() - i,
    {
        proof {
            let rest = rows_view(rows@).skip(i as int);
            assert(rest.skip(1) =~= rows_view(rows@).skip(i + 1));
        }
        match song_from_row(&rows[i]) {
            None => {
                return None;
            },
            Some(song) => {
                if song.title == wanted_title && contains_text(&song.artists, &wanted_artist) {
                    return Some(song);
                }
            },
        }
        i += 1;
    }
    None
}

/// The fields of the row that stores `song`.
pub fn fields_of_song(song: &SongEntry) -> (fields: Vec<String>)
    ensures
        texts(fields@) == song_fields(song@),
{
    let mut fields: Vec<String> = Vec::new();
    fields.push(song.title.clone());
    fields.push(join(&song.artists, LIST_SEPARATOR));
    fields.push(song.album.clone());
    fields.push(join(&song.genres, LIST_SEPARATOR));
    fields.push(song.song_path.clone());
    fields
}

/// The JSON object of a song: its fields in the order title, album, artists,
/// genres, song_path.
pub open spec fn json_song(song: SongRecord) -> Seq<char> {
    "{\"title\":"@ + json_text(song.title) + ",\"album\":"@ + json_text(song.album)
        + ",\"artists\":"@ + json_strings(song.artists) + ",\"genres\":"@ + json_strings(
        song.genres,
    ) + ",\"song_path\":"@ + json_text(song.song_path) + "}"@
}

/// The JSON array of the objects of `songs`.
pub open spec fn json_songs(songs: Seq<SongRecord>) -> Seq<char> {
    json_array(Seq::new(songs.len(), |i: int| json_song(songs[i])))
}

/// Writes a song as a JSON object.
pub fn song_json(song: &SongEntry) -> (json: String)
    ensures
        json@ == json_song(song@),
{
    let mut json = String::new();
    json.push_str("{\"title\":");
    json.push_str(json_string(song.title.as_str()).as_str());
    json.push_str(",\"album\":");
    json.push_str(json_string(song.album.as_str()).as_str());
    json.push_str(",\"artists\":");
    json.push_str(strings_text(&song.artists).as_str());
    json.push_str(",\"genres\":");
    json.push_str(strings_text(&song.genres).as_str());
    json.push_str(",\"song_path\":");
    json.push_str(json_string(song.song_path.as_str()).as_str());
    json.push_str("}");
    json
}

/// Writes a list of songs as a JSON array of objects.
pub fn songs_json(songs: &Vec<SongEntry>) -> (json: String)
    ensures
        json@ == json_songs(song_views(songs@)),
{
    let mut elements: Vec<String> = Vec::new();
    let mut i: usize = 0;
    while i < songs.len()
        invariant
            i <= songs.len(),
            elements.len() == i,
            forall|k: int| 0 <= k < i ==> (#[trigger] elements[k])@ == json_song(songs[k]@),
        decreases songs.len() - i,
    {
        elements.push(song_json(&songs[i]));
        i += 1;
    }
    assert(texts(elements@) =~= Seq::new(
        songs.len() as nat,
        |i: int| json_song(song_views(songs@)[i]),
    ));
    array_text(&elements)
}

/// The song catalog: the rows of the catalog file, in file order.
pub struct SongDatabase {
    path: String,
    rows: Vec<Option<Vec<String>>>,
}

impl SongDatabase {
    /// The rows of the catalog.
    pub closed spec fn rows(&self) -> Seq<Option<Seq<Seq<char>>>> {
        rows_view(self.rows@)
    }

    /// Where the catalog file lives.
    pub closed spec fn location(&self) -> Seq<char> {
        self.path@
    }

    /// An empty catalog for the file at `path`.
    pub fn new(path: String) -> (db: Self)
        ensures
            db.location() == path@,
            db.rows() == Seq::<Option<Seq<Seq<char>>>>::empty(),
    {
        let db = SongDatabase { path, rows: Vec::new() };
        db
    }

    /// A catalog for the file at `path` that holds the given rows.
    pub fn with_rows(path: String, rows: Vec<Option<Vec<String>>>) -> (db: Self)
        ensures
            db.location() == path@,
            db.rows() == rows_view(rows@),
    {
        SongDatabase { path, rows }
    }

    /// Where the catalog file lives.
    pub fn path(&self) -> (path: &str)
        ensures
            path@ == self.location(),
    {
        self.path.as_str()
    }

    /// Replaces the rows by those of the catalog file, whose bytes are
    /// `data`.
    pub fn load(&mut self, data: &[u8])
        ensures
            final(self).location() == old(self).location(),
            final(self).rows() == csv_rows(data@, FIELD_DELIMITER),
    {
        self.rows = read_rows(data, FIELD_DELIMITER);
    }

    /// Every song of the catalog, in file order. Rows that store no song
    /// are passed over.
    pub fn get_all(&self) -> (songs: Vec<SongEntry>)
        ensures
            song_views(songs@) == listed(self.rows()),
    {
        list_songs(&self.rows)
    }

    /// The first song with the given title and artist. A row that stores no
    /// song ends the search with nothing found.
    pub fn get_song_by_title_and_artist(&self, title: &str, artist: &str) -> (song: Option<
        SongEntry,
    >)
        ensures
            match song {
                Some(s) => found(self.rows(), title@, artist@) == Some(s@),
                None => found(self.rows(), title@, artist@).is_none(),
            },
    {
        find_song(&self.rows, title, artist)
    }

    /// Every song of the catalog as one JSON array, in file order.
    pub fn get_all_json(&self) -> (json: String)
        ensures
            json@ == json_songs(listed(self.rows())),
    {
        let songs = self.get_all();
        songs_json(&songs)
    }

    /// Appends `song` to the catalog and returns the bytes to append to the
    /// catalog file.
    pub fn add_song(&mut self, song: &SongEntry) -> (line: Vec<u8>)
        ensures
            final(self).location() == old(self).location(),
            final(self).rows() == old(self).rows().push(Some(song_fields(song@))),
            line@ == csv_line(song_fields(song@), FIELD_DELIMITER),
    {
        let fields = fields_of_song(song);
        let line = write_row(&fields, FIELD_DELIMITER);
        self.rows.push(Some(fields));
        line
    }
}

/// A song that the catalog gives back as it was stored: it has at least one
/// artist, none of its artists and genres holds the list separator, and its
/// genres are not the single empty genre, which is stored like no genre.
pub open spec fn storable(song: SongRecord) -> bool {
    &&& song.artists.len() >= 1
    &&& forall|i: int| 0 <= i < song.artists.len() ==> free_of(#[trigger] song.artists[i], LIST_SEPARATOR)
    &&& forall|i: int| 0 <= i < song.genres.len() ==> free_of(#[trigger] song.genres[i], LIST_SEPARATOR)
    &&& !(song.genres.len() == 1 && song.genres[0].len() == 0)
}

/// The rows of a catalog after each of `songs` was added to it in turn.
pub open spec fn appended(rows: Seq<Option<Seq<Seq<char>>>>, songs: Seq<SongRecord>) -> Seq<
    Option<Seq<Seq<char>>>,
>
    decreases songs.len(),
{
    if songs.len() == 0 {
        rows
    } else {
        appended(rows, songs.drop_last()).push(Some(song_fields(songs.last())))
    }
}

/// The row that stores a storable song gives that song back.
pub proof fn lemma_song_round_trip(song: SongRecord)
    requires
        storable(song),
    ensures
        song_of_row(Some(song_fields(song))) == Some(song),
{
    lemma_split_join(song.artists, LIST_SEPARATOR);
    if song.genres.len() == 0 {
        assert(song.genres =~= Seq::<Seq<char>>::empty());
    } else {
        lemma_split_join(song.genres, LIST_SEPARATOR);
        if song.genres.len() >= 2 {
            lemma_join_of_many(song.genres, LIST_SEPARATOR);
        }
    }
}

/// Listing goes row by row: the songs of two runs of rows, one after the
/// other, are the songs of the first run and then the songs of the second.
pub proof fn lemma_listed_concat(
    first: Seq<Option<Seq<Seq<char>>>>,
    second: Seq<Option<Seq<Seq<char>>>>,
)
    ensures
        listed(first + second) == listed(first) + listed(second),
    decreases second.len(),
{
    if second.len() > 0 {
        lemma_listed_concat(first, second.drop_last());
        assert((first + second).drop_last() =~= first + second.drop_last());
    }
}

/// Adding songs and then listing gives the songs that were listed before and
/// then the added songs, in the order in which they were added.
pub proof fn lemma_added_songs_are_listed(
    rows: Seq<Option<Seq<Seq<char>>>>,
    songs: Seq<SongRecord>,
)
    requires
        forall|i: int| 0 <= i < songs.len() ==> storable(#[trigger] songs[i]),
    ensures
        listed(appended(rows, songs)) == listed(rows) + songs,
    decreases songs.len(),
{
    if songs.len() > 0 {
        let init = songs.drop_last();
        assert forall|i: int| 0 <= i < init.len() implies storable(#[trigger] init[i]) by {}
        lemma_added_songs_are_listed(rows, init);
        lemma_song_round_trip(songs.last());
        let grown = appended(rows, songs);
        assert(grown.drop_last() =~= appended(rows, init));
    }
}

/// A row that stores no song adds nothing to the listing and takes nothing
/// from it: the songs before it and after it are listed as if it were not
/// there.
pub proof fn lemma_corrupt_row_is_skipped(
    before: Seq<Option<Seq<Seq<char>>>>,
    row: Option<Seq<Seq<char>>>,
    after: Seq<Option<Seq<Seq<char>>>>,
)
    requires
        song_of_row(row).is_none(),
    ensures
        listed(before.push(row) + after) == listed(before) + listed(after),
{
    lemma_listed_concat(before.push(row), after);
    assert(before.push(row).drop_last() =~= before);
}

} // verus!
