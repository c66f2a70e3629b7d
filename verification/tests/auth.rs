use jukbx::auth::{
    get_auth, login, password_digest, split_credentials, try_auth, update_password,
};
use jukbx::passwords::PasswordDatabase;
use jukbx::response::{Body, Response};

fn pair(user: &str, password: &str) -> Option<(String, String)> {
    Some((user.to_string(), password.to_string()))
}

fn challenge(text: &str) -> Response {
    Response {
        status: 401,
        headers: vec![("WWW-Authenticate".to_string(), "Basic realm=\"my realm\"".to_string())],
        body: Body::Text(text.to_string()),
    }
}

fn database_with(user: &str, password: &str) -> PasswordDatabase {
    let mut db = PasswordDatabase::new("u".into());
    db.add_user(user, &password_digest(password));
    db
}

#[test]
fn password_digest_is_base64_of_sha256() {
    assert_eq!(password_digest("password"), "XohImNooBHFR0OVvjcYpJ3NgPQ1qq73WKhHvch0VQtg=");
    assert_eq!(password_digest("hunter2"), "9S+9MrKzuG/4jvbEkGKChfSCrxXdyylUH5S89Saj9sc=");
    assert_eq!(password_digest("").len(), 44);
}

#[test]
fn basic_header_is_read() {
    assert_eq!(get_auth(Some("Basic dXNlcjpwYXNz")), pair("user", "pass"));
}

#[test]
fn password_may_hold_colons() {
    assert_eq!(get_auth(Some("Basic YWxpY2U6czNjcmV0Ong=")), pair("alice", "s3cret:x"));
}

#[test]
fn scheme_is_not_looked_at() {
    assert_eq!(get_auth(Some("Whatever dXNlcjpwYXNz")), pair("user", "pass"));
    assert_eq!(get_auth(Some(" dXNlcjpwYXNz")), pair("user", "pass"));
}

#[test]
fn unreadable_header_gives_nothing() {
    assert_eq!(get_auth(None), None);
    assert_eq!(get_auth(Some("")), None);
    assert_eq!(get_auth(Some("BasicdXNlcjpwYXNz")), None);
    assert_eq!(get_auth(Some("Basic not base64!")), None);
    assert_eq!(get_auth(Some("Basic  dXNlcjpwYXNz")), None);
    assert_eq!(get_auth(Some("Basic aGVsbG8=")), None);
    assert_eq!(get_auth(Some("Basic //46eA==")), None);
}

#[test]
fn payload_is_cut_at_the_first_colon() {
    assert_eq!(split_credentials(b"user:pass"), pair("user", "pass"));
    assert_eq!(split_credentials(b":"), pair("", ""));
    assert_eq!(split_credentials(b"a:b:c"), pair("a", "b:c"));
    assert_eq!(split_credentials("zoë:pässword".as_bytes()), pair("zoë", "pässword"));
    assert_eq!(split_credentials(b"nocolon"), None);
    assert_eq!(split_credentials(b""), None);
    assert_eq!(split_credentials(b"\xff\xfe:x"), None);
}

#[test]
fn known_user_is_authenticated() {
    let db = database_with("user", "pass");
    assert_eq!(try_auth(&db, Some("Basic dXNlcjpwYXNz")), Ok("user".to_string()));
}

#[test]
fn missing_header_is_challenged() {
    let db = database_with("user", "pass");
    assert_eq!(try_auth(&db, None), Err(challenge("")));
    assert_eq!(try_auth(&db, Some("Basic ???")), Err(challenge("")));
}

#[test]
fn wrong_password_is_an_invalid_login() {
    let db = database_with("user", "other");
    assert_eq!(try_auth(&db, Some("Basic dXNlcjpwYXNz")), Err(challenge("Invalid login")));
    let nobody = PasswordDatabase::new("u".into());
    assert_eq!(try_auth(&nobody, Some("Basic dXNlcjpwYXNz")), Err(challenge("Invalid login")));
}

#[test]
fn login_tells_the_user_name() {
    let db = database_with("us\"er", "pass");
    let header = "Basic dXMiZXI6cGFzcw==";
    assert_eq!(
        login(&db, Some(header)),
        Response {
            status: 200,
            headers: vec![("Content-Type".to_string(), "application/json".to_string())],
            body: Body::Text("{\"user\":\"us\\\"er\"}".to_string()),
        }
    );
    assert_eq!(login(&db, None), challenge(""));
    assert_eq!(login(&db, Some("Basic dXNlcjpwYXNz")), challenge("Invalid login"));
}

#[test]
fn password_is_changed() {
    let mut db = database_with("user", "pass");
    db.add_user("other", "digest");
    let (response, content) = update_password(&mut db, "user", "hunter2");
    assert_eq!(
        response,
        Response { status: 200, headers: vec![], body: Body::Text("{}".to_string()) }
    );
    assert_eq!(
        content,
        Some(b"other,digest\nuser,9S+9MrKzuG/4jvbEkGKChfSCrxXdyylUH5S89Saj9sc=\n".to_vec())
    );
    assert_eq!(db.get_user("user", &password_digest("hunter2")), Some("user".to_string()));
    assert_eq!(db.get_user("user", &password_digest("pass")), None);
}

#[test]
fn empty_password_is_refused() {
    let mut db = database_with("user", "pass");
    let (response, content) = update_password(&mut db, "user", "");
    assert_eq!(
        response,
        Response {
            status: 400,
            headers: vec![],
            body: Body::Text("r.new_password.len() > 0".to_string()),
        }
    );
    assert_eq!(content, None);
    assert_eq!(db.get_user("user", &password_digest("pass")), Some("user".to_string()));
}

#[test]
fn long_password_is_refused() {
    let mut db = database_with("user", "pass");
    let (response, content) = update_password(&mut db, "user", &"x".repeat(1000));
    assert_eq!(
        response,
        Response {
            status: 400,
            headers: vec![],
            body: Body::Text("r.new_password.len() < 1000".to_string()),
        }
    );
    assert_eq!(content, None);
    let (accepted, content) = update_password(&mut db, "user", &"x".repeat(999));
    assert_eq!(accepted.status, 200);
    assert!(content.is_some());
}

#[test]
fn password_length_is_counted_in_bytes() {
    let mut db = database_with("user", "pass");
    let (response, _) = update_password(&mut db, "user", &"é".repeat(500));
    assert_eq!(response.status, 400);
    let (response, _) = update_password(&mut db, "user", &"é".repeat(499));
    assert_eq!(response.status, 200);
}
