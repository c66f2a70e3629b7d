use jukbx::data::Database;
use jukbx::songs::{SongDatabase, SongEntry};

fn song(title: &str, artists: &[&str], album: &str, genres: &[&str], path: &str) -> SongEntry {
    SongEntry {
        title: title.to_string(),
        album: album.to_string(),
        artists: artists.iter().map(|a| a.to_string()).collect(),
        genres: genres.iter().map(|g| g.to_string()).collect(),
        song_path: path.to_string(),
    }
}

fn row(fields: &[&str]) -> Option<Vec<String>> {
    Some(fields.iter().map(|f| f.to_string()).collect())
}

#[test]
fn new_catalog_is_empty() {
    let db = SongDatabase::new("./songs.csv".to_string());
    assert_eq!(db.path(), "./songs.csv");
    assert_eq!(db.get_all(), vec![]);
    assert_eq!(db.get_song_by_title_and_artist("a", "b"), None);
    assert_eq!(db.get_all_json(), "[]");
}

#[test]
fn added_song_is_written_as_one_line() {
    let mut db = SongDatabase::new("songs".to_string());
    let line = db.add_song(&song("Blue", &["Ann", "Bob"], "Sky", &["jazz", "soul"], "a-b.mp3"));
    assert_eq!(line, b"Blue\x1dAnn\x1fBob\x1dSky\x1djazz\x1fsoul\x1da-b.mp3\n".to_vec());
}

#[test]
fn added_song_without_genres_has_an_empty_field() {
    let mut db = SongDatabase::new("songs".to_string());
    let line = db.add_song(&song("Blue", &["Ann"], "Sky", &[], "a.mp3"));
    assert_eq!(line, b"Blue\x1dAnn\x1dSky\x1d\x1da.mp3\n".to_vec());
    assert_eq!(db.get_all(), vec![song("Blue", &["Ann"], "Sky", &[], "a.mp3")]);
}

#[test]
fn added_songs_are_listed_in_order() {
    let songs = vec![
        song("One", &["A"], "First", &["rock"], "1.mp3"),
        song("Two", &["B", "C"], "Second", &[], "2.flac"),
        song("Three, \"quoted\"", &["D\nE"], "Third", &["x", "y", "z"], "3.ogg"),
        song("One", &["A"], "First", &["rock"], "1.mp3"),
    ];
    let mut db = SongDatabase::new("songs".to_string());
    let mut file: Vec<u8> = Vec::new();
    for s in &songs {
        file.extend(db.add_song(s));
    }
    assert_eq!(db.get_all(), songs);

    let mut reread = SongDatabase::new("songs".to_string());
    reread.load(&file);
    assert_eq!(reread.get_all(), songs);
}

#[test]
fn songs_are_listed_after_what_was_there() {
    let mut db = SongDatabase::new("songs".to_string());
    db.load(b"Old\x1dZ\x1dAlbum\x1dpop\x1dold.mp3\n");
    let added = song("New", &["Y"], "Album", &["pop"], "new.mp3");
    let line = db.add_song(&added);
    assert_eq!(db.get_all(), vec![song("Old", &["Z"], "Album", &["pop"], "old.mp3"), added]);
    assert_eq!(line, b"New\x1dY\x1dAlbum\x1dpop\x1dnew.mp3\n".to_vec());
}

#[test]
fn corrupted_row_is_skipped_by_the_listing() {
    let mut file: Vec<u8> = Vec::new();
    file.extend_from_slice(b"One\x1dA\x1dFirst\x1drock\x1d1.mp3\n");
    file.extend_from_slice(b"\xff\xfe\x1dbroken\x1drow\x1dnot\x1dutf8\n");
    file.extend_from_slice(b"too\x1dfew\x1dfields\n");
    file.extend_from_slice(b"Two\x1dB\x1dSecond\x1d\x1d2.mp3\n");
    let mut db = SongDatabase::new("songs".to_string());
    db.load(&file);
    assert_eq!(
        db.get_all(),
        vec![
            song("One", &["A"], "First", &["rock"], "1.mp3"),
            song("Two", &["B"], "Second", &[], "2.mp3"),
        ]
    );
}

#[test]
fn first_row_is_a_record_like_any_other() {
    let mut db = SongDatabase::new("songs".to_string());
    db.load(b"One\x1dA\x1dFirst\x1drock\x1d1.mp3\n");
    assert_eq!(db.get_all().len(), 1);
}

#[test]
fn lookup_returns_the_first_match() {
    let db = SongDatabase::with_rows(
        "songs".to_string(),
        vec![
            row(&["Blue", "Ann", "Sky", "jazz", "1.mp3"]),
            row(&["Blue", "Bob\x1fCid", "Sea", "", "2.mp3"]),
            row(&["Blue", "Cid", "Sun", "pop", "3.mp3"]),
        ],
    );
    assert_eq!(
        db.get_song_by_title_and_artist("Blue", "Cid"),
        Some(song("Blue", &["Bob", "Cid"], "Sea", &[], "2.mp3"))
    );
    assert_eq!(
        db.get_song_by_title_and_artist("Blue", "Ann"),
        Some(song("Blue", &["Ann"], "Sky", &["jazz"], "1.mp3"))
    );
}

#[test]
fn lookup_matches_whole_names_only() {
    let db = SongDatabase::with_rows(
        "songs".to_string(),
        vec![row(&["Blue", "Bob\x1fCid", "Sea", "", "2.mp3"])],
    );
    assert_eq!(db.get_song_by_title_and_artist("Blue", "Bo"), None);
    assert_eq!(db.get_song_by_title_and_artist("Blue", "Bob\x1fCid"), None);
    assert_eq!(db.get_song_by_title_and_artist("Blu", "Bob"), None);
    assert_eq!(db.get_song_by_title_and_artist("blue", "Bob"), None);
    assert_eq!(db.get_song_by_title_and_artist("Blue", ""), None);
}

#[test]
fn lookup_stops_at_a_corrupted_row() {
    let db = SongDatabase::with_rows(
        "songs".to_string(),
        vec![
            row(&["One", "A", "First", "rock", "1.mp3"]),
            None,
            row(&["Two", "B", "Second", "", "2.mp3"]),
        ],
    );
    assert_eq!(db.get_song_by_title_and_artist("Two", "B"), None);
    assert_eq!(
        db.get_song_by_title_and_artist("One", "A"),
        Some(song("One", &["A"], "First", &["rock"], "1.mp3"))
    );
    assert_eq!(db.get_all().len(), 2);
}

#[test]
fn lookup_stops_at_a_row_of_the_wrong_width() {
    let db = SongDatabase::with_rows(
        "songs".to_string(),
        vec![
            row(&["One", "A", "First", "rock", "1.mp3", "extra"]),
            row(&["Two", "B", "Second", "", "2.mp3"]),
        ],
    );
    assert_eq!(db.get_song_by_title_and_artist("Two", "B"), None);
    assert_eq!(db.get_all(), vec![song("Two", &["B"], "Second", &[], "2.mp3")]);
}

#[test]
fn lookup_reads_the_file_it_was_given() {
    let mut db = SongDatabase::new("songs".to_string());
    db.load(b"One\x1dA\x1fB\x1dFirst\x1drock\x1d1.mp3\nTwo\x1dB\x1dSecond\x1d\x1d2.mp3\n");
    assert_eq!(
        db.get_song_by_title_and_artist("One", "B"),
        Some(song("One", &["A", "B"], "First", &["rock"], "1.mp3"))
    );
    db.load(b"");
    assert_eq!(db.get_song_by_title_and_artist("One", "B"), None);
}

#[test]
fn listing_is_a_json_array() {
    let mut db = SongDatabase::new("songs".to_string());
    db.add_song(&song("Blue \"1\"", &["Ann", "Bob"], "Sky", &[], "a.mp3"));
    db.add_song(&song("Red", &["Cid"], "Sea", &["pop"], "b.mp3"));
    assert_eq!(
        db.get_all_json(),
        "[{\"title\":\"Blue \\\"1\\\"\",\"album\":\"Sky\",\"artists\":[\"Ann\",\"Bob\"],\
         \"genres\":[],\"song_path\":\"a.mp3\"},\
         {\"title\":\"Red\",\"album\":\"Sea\",\"artists\":[\"Cid\"],\"genres\":[\"pop\"],\
         \"song_path\":\"b.mp3\"}]"
    );
}

#[test]
fn listing_is_valid_json() {
    let mut db = SongDatabase::new("songs".to_string());
    db.add_song(&song("Tab\there", &["A\\B"], "Line\nbreak", &["é"], "a.mp3"));
    let parsed: serde_json::Value = serde_json::from_str(&db.get_all_json()).unwrap();
    assert_eq!(parsed[0]["title"], "Tab\there");
    assert_eq!(parsed[0]["artists"][0], "A\\B");
    assert_eq!(parsed[0]["album"], "Line\nbreak");
    assert_eq!(parsed[0]["genres"][0], "é");
    assert_eq!(parsed[0]["song_path"], "a.mp3");
}

#[test]
fn database_keeps_three_stores_apart() {
    let mut db = Database::open("s.csv".into(), "u.csv".into(), "w.csv".into());
    assert_eq!(db.songs.path(), "s.csv");
    assert_eq!(db.passwords.path(), "u.csv");
    assert_eq!(db.whitelist.path(), "w.csv");
    let line = db.add_song(&song("Blue", &["Ann"], "Sky", &[], "a.mp3"));
    assert_eq!(line, b"Blue\x1dAnn\x1dSky\x1d\x1da.mp3\n".to_vec());
    assert_eq!(
        db.get_song_by_title_and_artist("Blue", "Ann"),
        Some(song("Blue", &["Ann"], "Sky", &[], "a.mp3"))
    );
    assert_eq!(
        db.get_all_json(),
        "[{\"title\":\"Blue\",\"album\":\"Sky\",\"artists\":[\"Ann\"],\"genres\":[],\
         \"song_path\":\"a.mp3\"}]"
    );
    assert_eq!(db.get_user("Blue", "Ann"), None);
    assert!(!db.is_allowed("Blue"));
}
