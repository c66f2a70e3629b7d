use base64::Engine;
use jukbx::metadata::{
    advance, get_metadata, get_musicbrainz_metadata, probe, probe_response, tags_from,
    tags_or_refusal, Lookup, ProbeSongResponse, RecordingInfo, ReleaseGroupInfo, Search,
    SearchResult, Step, Tag,
};
use jukbx::response::{Body, Response};

fn text(s: &str) -> Option<String> {
    Some(s.to_string())
}

fn tag(artist: Option<&str>, album: Option<&str>) -> Tag {
    Tag {
        title: "Tagged".to_string(),
        artist: artist.map(String::from),
        album: album.map(String::from),
    }
}

fn recording() -> RecordingInfo {
    RecordingInfo {
        title: "Recorded".to_string(),
        artist_credit: Some(vec!["Ann".to_string(), "Bob".to_string()]),
        genres: Some(vec!["jazz".to_string()]),
        first_release: text("First Release"),
    }
}

fn bare_recording() -> RecordingInfo {
    RecordingInfo {
        title: "Recorded".to_string(),
        artist_credit: None,
        genres: None,
        first_release: None,
    }
}

fn group() -> ReleaseGroupInfo {
    ReleaseGroupInfo { id: "rg-1".to_string(), title: "Grouped".to_string() }
}

fn flac(comments: &[&str]) -> Vec<u8> {
    let mut file = b"fLaC".to_vec();
    file.extend_from_slice(&[0x00, 0x00, 0x00, 0x22]);
    file.extend_from_slice(&[0x10, 0x00, 0x10, 0x00, 0, 0, 0, 0, 0, 0]);
    file.extend_from_slice(&[0x0a, 0xc4, 0x42, 0xf0, 0, 0, 0, 0]);
    file.extend_from_slice(&[0u8; 16]);
    let mut block = Vec::new();
    block.extend_from_slice(&4u32.to_le_bytes());
    block.extend_from_slice(b"test");
    block.extend_from_slice(&(comments.len() as u32).to_le_bytes());
    for comment in comments {
        block.extend_from_slice(&(comment.len() as u32).to_le_bytes());
        block.extend_from_slice(comment.as_bytes());
    }
    file.push(0x84);
    file.extend_from_slice(&(block.len() as u32).to_be_bytes()[1..]);
    file.extend_from_slice(&block);
    file
}

fn base64(data: &[u8]) -> String {
    base64::engine::general_purpose::STANDARD.encode(data)
}

#[test]
fn tags_are_read_from_song_data() {
    let data = flac(&["TITLE=Blue", "ARTIST=Ann", "ALBUM=Sky"]);
    assert_eq!(
        probe(&base64(&data)),
        Ok(Tag { title: "Blue".to_string(), artist: text("Ann"), album: text("Sky") })
    );
}

#[test]
fn title_alone_is_enough() {
    let data = flac(&["TITLE=Blue"]);
    assert_eq!(probe(&base64(&data)), Ok(Tag { title: "Blue".to_string(), artist: None, album: None }));
}

#[test]
fn song_without_title_is_refused() {
    let data = flac(&["ARTIST=Ann"]);
    assert_eq!(
        probe(&base64(&data)),
        Err(Response { status: 400, headers: vec![], body: Body::Text("No title found".to_string()) })
    );
}

#[test]
fn song_data_of_no_known_kind_is_refused() {
    let refused = probe(&base64(b"this is not an audio file at all")).unwrap_err();
    assert_eq!(refused.status, 400);
    assert!(matches!(refused.body, Body::Text(ref text) if !text.is_empty()));
}

#[test]
fn probe_refuses_what_is_not_base64() {
    let refused = probe("???").unwrap_err();
    assert_eq!(refused.status, 400);
}

#[test]
fn reader_outcomes_are_sorted_out() {
    assert_eq!(tags_from(Err("broken".to_string())), Err("broken".to_string()));
    assert_eq!(tags_from(Ok(None)), Err("No tags found".to_string()));
    assert_eq!(tags_from(Ok(Some((None, text("a"), text("b"))))), Err("No title found".to_string()));
    assert_eq!(
        tags_from(Ok(Some((text("t"), None, text("b"))))),
        Ok(Tag { title: "t".to_string(), artist: None, album: text("b") })
    );
}

#[test]
fn unusable_tags_are_a_bad_request() {
    let refused = |text: &str| {
        Err(Response { status: 400, headers: vec![], body: Body::Text(text.to_string()) })
    };
    assert_eq!(tags_or_refusal(Err("broken".to_string())), refused("broken"));
    assert_eq!(tags_or_refusal(Ok(None)), refused("No tags found"));
    assert_eq!(tags_or_refusal(Ok(Some((None, None, None)))), refused("No title found"));
    assert_eq!(
        tags_or_refusal(Ok(Some((text("t"), text("a"), None)))),
        Ok(Tag { title: "t".to_string(), artist: text("a"), album: None })
    );
}

#[test]
fn lookup_with_artist_and_album_starts_at_the_release_group() {
    let (state, step) = get_musicbrainz_metadata("Blue".to_string(), text("Ann"), text("Sky"));
    assert_eq!(state, Lookup::ReleaseGroups { title: "Blue".to_string(), artist: "Ann".to_string() });
    assert_eq!(
        step,
        Step::Search(Search::ReleaseGroup {
            release_group: "Sky".to_string(),
            artist: "Ann".to_string()
        })
    );
}

#[test]
fn lookup_without_album_searches_the_recording() {
    let (state, step) = get_musicbrainz_metadata("Blue".to_string(), text("Ann"), None);
    assert_eq!(state, Lookup::Recordings { release_group: None });
    assert_eq!(
        step,
        Step::Search(Search::Recording { recording: "Blue".to_string(), by: text("Ann"), rgid: None })
    );
}

#[test]
fn lookup_without_artist_searches_by_title_alone() {
    let (_, step) = get_musicbrainz_metadata("Blue".to_string(), None, text("Sky"));
    assert_eq!(
        step,
        Step::Search(Search::Recording { recording: "Blue".to_string(), by: None, rgid: None })
    );
    let (_, step) = get_musicbrainz_metadata("Blue".to_string(), None, None);
    assert_eq!(
        step,
        Step::Search(Search::Recording { recording: "Blue".to_string(), by: None, rgid: None })
    );
}

#[test]
fn found_release_group_narrows_the_search() {
    let state = Lookup::ReleaseGroups { title: "Blue".to_string(), artist: "Ann".to_string() };
    let (state, step) = advance(state, SearchResult::ReleaseGroup(Some(group())));
    assert_eq!(state, Lookup::Recordings { release_group: Some(group()) });
    assert_eq!(
        step,
        Step::Search(Search::Recording {
            recording: "Blue".to_string(),
            by: text("Ann"),
            rgid: text("rg-1")
        })
    );
    let (state, step) = advance(state, SearchResult::Recording(Some(recording())));
    assert_eq!(state, Lookup::Done);
    assert_eq!(step, Step::Done(Some((recording(), Some(group())))));
}

#[test]
fn missing_release_group_is_retried_without_album() {
    let state = Lookup::ReleaseGroups { title: "Blue".to_string(), artist: "Ann".to_string() };
    let (state, step) = advance(state, SearchResult::ReleaseGroup(None));
    assert_eq!(state, Lookup::Recordings { release_group: None });
    assert_eq!(
        step,
        Step::Search(Search::Recording { recording: "Blue".to_string(), by: text("Ann"), rgid: None })
    );
    let (_, step) = advance(state, SearchResult::Recording(Some(recording())));
    assert_eq!(step, Step::Done(Some((recording(), None))));
}

#[test]
fn failed_search_ends_the_lookup() {
    let waiting = || Lookup::ReleaseGroups { title: "Blue".to_string(), artist: "Ann".to_string() };
    assert_eq!(advance(waiting(), SearchResult::Failed), (Lookup::Done, Step::Done(None)));
    assert_eq!(
        advance(waiting(), SearchResult::Recording(Some(recording()))),
        (Lookup::Done, Step::Done(None))
    );
    let searching = || Lookup::Recordings { release_group: Some(group()) };
    assert_eq!(advance(searching(), SearchResult::Failed), (Lookup::Done, Step::Done(None)));
    assert_eq!(advance(searching(), SearchResult::Recording(None)), (Lookup::Done, Step::Done(None)));
    assert_eq!(
        advance(searching(), SearchResult::ReleaseGroup(Some(group()))),
        (Lookup::Done, Step::Done(None))
    );
    assert_eq!(
        advance(Lookup::Done, SearchResult::Recording(Some(recording()))),
        (Lookup::Done, Step::Done(None))
    );
}

#[test]
fn tags_alone_are_told_when_nothing_was_found() {
    assert_eq!(
        get_metadata(tag(Some("Tagger"), Some("Tagged Album")), None),
        ProbeSongResponse {
            title: text("Tagged"),
            artists: vec!["Tagger".to_string()],
            album: text("Tagged Album"),
            genres: vec![],
        }
    );
    assert_eq!(
        get_metadata(tag(None, None), None),
        ProbeSongResponse { title: text("Tagged"), artists: vec![], album: None, genres: vec![] }
    );
}

#[test]
fn found_recording_is_told_before_the_tags() {
    assert_eq!(
        get_metadata(tag(Some("Tagger"), Some("Tagged Album")), Some((recording(), Some(group())))),
        ProbeSongResponse {
            title: text("Recorded"),
            artists: vec!["Ann".to_string(), "Bob".to_string()],
            album: text("Grouped"),
            genres: vec!["jazz".to_string()],
        }
    );
}

#[test]
fn album_falls_back_to_tag_and_then_to_first_release() {
    assert_eq!(
        get_metadata(tag(None, Some("Tagged Album")), Some((recording(), None))).album,
        text("Tagged Album")
    );
    assert_eq!(get_metadata(tag(None, None), Some((recording(), None))).album, text("First Release"));
    assert_eq!(get_metadata(tag(None, None), Some((bare_recording(), None))).album, None);
}

#[test]
fn artists_fall_back_to_the_tag() {
    let told = get_metadata(tag(Some("Tagger"), None), Some((bare_recording(), None)));
    assert_eq!(told.artists, vec!["Tagger".to_string()]);
    assert_eq!(told.genres, Vec::<String>::new());
    assert_eq!(told.title, text("Recorded"));
    let told = get_metadata(tag(None, None), Some((bare_recording(), None)));
    assert_eq!(told.artists, Vec::<String>::new());
}

#[test]
fn probed_song_is_told_as_json() {
    let told = ProbeSongResponse {
        title: text("Bl\"ue"),
        artists: vec!["Ann".to_string(), "Bob".to_string()],
        album: None,
        genres: vec![],
    };
    assert_eq!(
        probe_response(&told),
        Response {
            status: 200,
            headers: vec![("Content-Type".to_string(), "application/json".to_string())],
            body: Body::Text(
                "{\"title\":\"Bl\\\"ue\",\"artists\":[\"Ann\",\"Bob\"],\"album\":null,\"genres\":[]}"
                    .to_string()
            ),
        }
    );
}
