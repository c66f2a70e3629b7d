//! The credential store: one row per user, holding the user's name and the
//! digest of the user's password.

use vstd::prelude::*;
use crate::rows::{csv_line, csv_rows, read_rows, row_view, rows_view, write_row};
use crate::text::{same_text, texts};

verus! {

/// The byte between the two fields of a credential row: a comma.
pub const FIELD_DELIMITER: u8 = 0x2C;

/// The number of fields in a credential row.
pub const CREDENTIAL_FIELDS: usize = 2;

/// The credential that a row stores: user name and password digest. A
/// malformed row, or a row that does not have exactly two fields, stores
/// none.
pub open spec fn credential_of_row(row: Option<Seq<Seq<char>>>) -> Option<(Seq<char>, Seq<char>)> {
    match row {
        Some(fields) => if fields.len() == CREDENTIAL_FIELDS {
            Some((fields[0], fields[1]))
        } else {
            None
        },
        None => None,
    }
}

/// The row that stores the credential of `user`.
pub open spec fn credential_row(user: Seq<char>, digest: Seq<char>) -> Option<Seq<Seq<char>>> {
    Some(seq![user, digest])
}

/// The name under which `user` with `digest` is known to `rows`, looking from
/// the first row on: the name stored in the first row that holds both.
/// A row that stores no credential ends the search with nothing found.
pub open spec fn looked_up(
    rows: Seq<Option<Seq<Seq<char>>>>,
    user: Seq<char>,
    digest: Seq<char>,
) -> Option<Seq<char>>
    decreases rows.len(),
{
    if rows.len() == 0 {
        None
    } else {
        match credential_of_row(rows[0]) {
            None => None,
            Some(stored) => if stored.0 == user && stored.1 == digest {
                Some(stored.0)
            } else {
                looked_up(rows.skip(1), user, digest)
            },
        }
    }
}

/// The credentials of `rows` in order, rows that store none left out.
pub open spec fn credentials(rows: Seq<Option<Seq<Seq<char>>>>) -> Seq<(Seq<char>, Seq<char>)>
    decreases rows.len(),
{
    if rows.len() == 0 {
        Seq::empty()
    } else {
        match credential_of_row(rows.last()) {
            Some(stored) => credentials(rows.drop_last()).push(stored),
            None => credentials(rows.drop_last()),
        }
    }
}

/// The rows that keep a credential of another user than `user`, in order,
/// each rewritten as a row of exactly its two fields.
pub open spec fn kept(rows: Seq<Option<Seq<Seq<char>>>>, user: Seq<char>) -> Seq<
    Option<Seq<Seq<char>>>,
>
    decreases rows.len(),
{
    if rows.len() == 0 {
        Seq::empty()
    } else {
        match credential_of_row(rows.last()) {
            Some(stored) => if stored.0 != user {
                kept(rows.drop_last(), user).push(credential_row(stored.0, stored.1))
            } else {
                kept(rows.drop_last(), user)
            },
            None => kept(rows.drop_last(), user),
        }
    }
}

/// The rows after the password of `user` is set to `digest`: every row of
/// another user is kept, every row of `user` and every row that stores no
/// credential is dropped, and one row with the new digest comes last.
pub open spec fn updated(
    rows: Seq<Option<Seq<Seq<char>>>>,
    user: Seq<char>,
    digest: Seq<char>,
) -> Seq<Option<Seq<Seq<char>>>> {
    kept(rows, user).push(credential_row(user, digest))
}

/// The bytes of a file that holds `rows`: the lines of its rows one after
/// another. A malformed row has no line.
pub open spec fn encoded(rows: Seq<Option<Seq<Seq<char>>>>, delimiter: u8) -> Seq<u8>
    decreases rows.len(),
{
    if rows.len() == 0 {
        Seq::empty()
    } else {
        match rows.last() {
            Some(fields) => encoded(rows.drop_last(), delimiter) + csv_line(fields, delimiter),
            None => encoded(rows.drop_last(), delimiter),
        }
    }
}

/// The views of a list of credentials.
pub open spec fn credential_views(list: Seq<(String, String)>) -> Seq<(Seq<char>, Seq<char>)> {
    list.map_values(|c: (String, String)| (c.0@, c.1@))
}

/// Looks `user` with `digest` up in `rows`. A digest is compared with a
/// stored digest of its length to the end, whatever the two hold.
pub fn find_user(rows: &Vec<Option<Vec<String>>>, user: &str, digest: &str) -> (name: Option<
    String,
>)
    ensures
        match name {
            Some(n) => looked_up(rows_view(rows@), user@, digest@) == Some(n@),
            None => looked_up(rows_view(rows@), user@, digest@).is_none(),
        },
{
    let wanted_user = user.to_owned();
    let mut i: usize = 0;
    assert(rows_view(rows@).skip(0) =~= rows_view(rows@));
    while i < rows.len()
        invariant
            i <= rows.len(),
            wanted_user@ == user@,
            looked_up(rows_view(rows@), user@, digest@) == looked_up(
                rows_view(rows@).skip(i as int),
                user@,
                digest@,
            ),
        decreases rows.len() - i,
    {
        proof {
            let rest = rows_view(rows@).skip(i as int);
            assert(rest.skip(1) =~= rows_view(rows@).skip(i + 1));
        }
        match &rows[i] {
            None => {
                return None;
            },
            Some(fields) => {
                if fields.len() != CREDENTIAL_FIELDS {
                    return None;
                }
                if fields[0] == wanted_user && same_text(fields[1].as_str(), digest) {
                    return Some(fields[0].clone());
                }
            },
        }
        i += 1;
    }
    None
}

/// The credentials of `rows` in order; rows that store none are passed over.
pub fn list_credentials(rows: &Vec<Option<Vec<String>>>) -> (list: Vec<(String, String)>)
    ensures
        credential_views(list@) == credentials(rows_view(rows@)),
{
    let mut list: Vec<(String, String)> = Vec::new();
    let mut i: usize = 0;
    while i < rows.len()
        invariant
            i <= rows.len(),
            credential_views(list@) == credentials(rows_view(rows@).take(i as int)),
        decreases rows.len() - i,
    {
        proof {
            let next = rows_view(rows@).take(i + 1);
            assert(next.drop_last() =~= rows_view(rows@).take(i as int));
        }
        match &rows[i] {
            Some(fields) => {
                if fields.len() == CREDENTIAL_FIELDS {
                    list.push((fields[0].clone(), fields[1].clone()));
                }
            },
            None => {},
        }
        i += 1;
    }
    assert(rows_view(rows@).take(i as int) =~= rows_view(rows@));
    list
}

/// The credential store: the rows of the credential file, in file order.
pub struct PasswordDatabase {
    path: String,
    rows: Vec<Option<Vec<String>>>,
}

impl PasswordDatabase {
    /// The rows of the store.
    pub closed spec fn rows(&self) -> Seq<Option<Seq<Seq<char>>>> {
        rows_view(self.rows@)
    }

    /// Where the credential file lives.
    pub closed spec fn location(&self) -> Seq<char> {
        self.path@
    }

    /// An empty store for the file at `path`.
    pub fn new(path: String) -> (db: Self)
        ensures
            db.location() == path@,
            db.rows() == Seq::<Option<Seq<Seq<char>>>>::empty(),
    {
        let db = PasswordDatabase { path, rows: Vec::new() };
        db
    }

    /// A store for the file at `path` that holds the given rows.
    pub fn with_rows(path: String, rows: Vec<Option<Vec<String>>>) -> (db: Self)
        ensures
            db.location() == path@,
            db.rows() == rows_view(rows@),
    {
        PasswordDatabase { path, rows }
    }

    /// Where the credential file lives.
    pub fn path(&self) -> (path: &str)
        ensures
            path@ == self.location(),
    {
        self.path.as_str()
    }

    /// Replaces the rows by those of the credential file, whose bytes are
    /// `data`.
    pub fn load(&mut self, data: &[u8])
        ensures
            final(self).location() == old(self).location(),
            final(self).rows() == csv_rows(data@, FIELD_DELIMITER),
    {
        self.rows = read_rows(data, FIELD_DELIMITER);
    }

    /// The stored name of `user` if a row holds `user` with the digest
    /// `password`. A row that stores no credential ends the search with
    /// nothing found.
    pub fn get_user(&self, user: &str, password: &str) -> (name: Option<String>)
        ensures
            match name {
                Some(n) => looked_up(self.rows(), user@, password@) == Some(n@),
                None => looked_up(self.rows(), user@, password@).is_none(),
            },
    {
        find_user(&self.rows, user, password)
    }

    /// Every credential of the store, in file order. Rows that store none
    /// are passed over.
    pub fn get_all(&self) -> (list: Vec<(String, String)>)
        ensures
            credential_views(list@) == credentials(self.rows()),
    {
        list_credentials(&self.rows)
    }

    /// Appends a row for `user` and returns the bytes to append to the
    /// credential file. Rows that the store holds for `user` already are
    /// left as they are.
    pub fn add_user(&mut self, user: &str, hashed_pw: &str) -> (line: Vec<u8>)
        ensures
            final(self).location() == old(self).location(),
            final(self).rows() == old(self).rows().push(credential_row(user@, hashed_pw@)),
            line@ == csv_line(seq![user@, hashed_pw@], FIELD_DELIMITER),
    {
        let mut fields: Vec<String> = Vec::new();
        fields.push(user.to_owned());
        fields.push(hashed_pw.to_owned());
        assert(texts(fields@) =~= seq![user@, hashed_pw@]);
        let line = write_row(&fields, FIELD_DELIMITER);
        self.rows.push(Some(fields));
        line
    }

    /// Sets the password digest of `user`: drops every row of `user` and
    /// every row that stores no credential, keeps the others in order, and
    /// puts one row with the new digest last. Returns the bytes of the whole
    /// file that replaces the credential file.
    pub fn update_user(&mut self, user: &str, base64_pass: &str) -> (content: Vec<u8>)
        ensures
            final(self).location() == old(self).location(),
            final(self).rows() == updated(old(self).rows(), user@, base64_pass@),
            content@ == encoded(final(self).rows(), FIELD_DELIMITER),
    {
        let wanted = user.to_owned();
        let mut next: Vec<Option<Vec<String>>> = Vec::new();
        let mut content: Vec<u8> = Vec::new();
        let mut i: usize = 0;
        while i < self.rows.len()
            invariant
                i <= self.rows.len(),
                *self == *old(self),
                wanted@ == user@,
                rows_view(next@) == kept(rows_view(self.rows@).take(i as int), user@),
                content@ == encoded(rows_view(next@), FIELD_DELIMITER),
            decreases self.rows.len() - i,
        {
            let ghost before = rows_view(next@);
            proof {
                let upto = rows_view(self.rows@).take(i + 1);
                assert(upto.drop_last() =~= rows_view(self.rows@).take(i as int));
            }
            match &self.rows[i] {
                Some(fields) => {
                    if fields.len() == CREDENTIAL_FIELDS {
                        if fields[0] != wanted {
                            let mut copy: Vec<String> = Vec::new();
                            copy.push(fields[0].clone());
                            copy.push(fields[1].clone());
                            assert(texts(copy@) =~= seq![fields@[0]@, fields@[1]@]);
                            let mut line = write_row(&copy, FIELD_DELIMITER);
                            content.append(&mut line);
                            next.push(Some(copy));
                            proof {
                                let after = rows_view(next@);
                                assert(after.drop_last() =~= before);
                            }
                        }
                    }
                },
                None => {},
            }
            i += 1;
        }
        assert(rows_view(self.rows@).take(i as int) =~= rows_view(self.rows@));
        let ghost before = rows_view(next@);
        let mut last: Vec<String> = Vec::new();
        last.push(user.to_owned());
        last.push(base64_pass.to_owned());
        assert(texts(last@) =~= seq![user@, base64_pass@]);
        let mut line = write_row(&last, FIELD_DELIMITER);
        content.append(&mut line);
        next.push(Some(last));
        proof {
            let after = rows_view(next@);
            assert(after.drop_last() =~= before);
        }
        self.rows = next;
        content
    }
}

/// The number of rows of `rows` that store a credential of `user`.
pub open spec fn rows_of(rows: Seq<Option<Seq<Seq<char>>>>, user: Seq<char>) -> nat
    decreases rows.len(),
{
    if rows.len() == 0 {
        0
    } else {
        match credential_of_row(rows.last()) {
            Some(stored) => if stored.0 == user {
                rows_of(rows.drop_last(), user) + 1
            } else {
                rows_of(rows.drop_last(), user)
            },
            None => rows_of(rows.drop_last(), user),
        }
    }
}

/// Every row that an update keeps stores a credential of another user.
pub proof fn lemma_kept_rows(rows: Seq<Option<Seq<Seq<char>>>>, user: Seq<char>)
    ensures
        forall|i: int|
            0 <= i < kept(rows, user).len() ==> {
                let stored = credential_of_row(#[trigger] kept(rows, user)[i]);
                stored.is_some() && stored.unwrap().0 != user
            },
        rows_of(kept(rows, user), user) == 0,
    decreases rows.len(),
{
    if rows.len() > 0 {
        lemma_kept_rows(rows.drop_last(), user);
        match credential_of_row(rows.last()) {
            Some(stored) => {
                if stored.0 != user {
                    let grown = kept(rows, user);
                    assert(grown.drop_last() =~= kept(rows.drop_last(), user));
                }
            },
            None => {},
        }
    }
}

/// A search for `user` passes over rows that store credentials of other
/// users.
pub proof fn lemma_lookup_passes_others(
    others: Seq<Option<Seq<Seq<char>>>>,
    rest: Seq<Option<Seq<Seq<char>>>>,
    user: Seq<char>,
    digest: Seq<char>,
)
    requires
        forall|i: int|
            0 <= i < others.len() ==> {
                let stored = credential_of_row(#[trigger] others[i]);
                stored.is_some() && stored.unwrap().0 != user
            },
    ensures
        looked_up(others + rest, user, digest) == looked_up(rest, user, digest),
    decreases others.len(),
{
    if others.len() > 0 {
        let all = others + rest;
        assert(all.skip(1) =~= others.skip(1) + rest);
        assert forall|i: int| 0 <= i < others.skip(1).len() implies {
            let stored = credential_of_row(#[trigger] others.skip(1)[i]);
            stored.is_some() && stored.unwrap().0 != user
        } by {}
        lemma_lookup_passes_others(others.skip(1), rest, user, digest);
    }
}

/// After the password of `user` is set to `digest`, a lookup of `user`
/// succeeds with `digest` and with no other digest, whatever rows the store
/// held before.
pub proof fn lemma_update_then_lookup(
    rows: Seq<Option<Seq<Seq<char>>>>,
    user: Seq<char>,
    digest: Seq<char>,
    tried: Seq<char>,
)
    ensures
        looked_up(updated(rows, user, digest), user, tried) == if tried == digest {
            Some(user)
        } else {
            None
        },
{
    lemma_kept_rows(rows, user);
    let last = seq![credential_row(user, digest)];
    assert(updated(rows, user, digest) =~= kept(rows, user) + last);
    lemma_lookup_passes_others(kept(rows, user), last, user, tried);
    assert(looked_up(last.skip(1), user, tried).is_none());
}

/// After the password of `user` is set, exactly one row stores a credential
/// of `user`, however many did before.
pub proof fn lemma_update_leaves_one_row(
    rows: Seq<Option<Seq<Seq<char>>>>,
    user: Seq<char>,
    digest: Seq<char>,
)
    ensures
        rows_of(updated(rows, user, digest), user) == 1,
{
    lemma_kept_rows(rows, user);
    assert(updated(rows, user, digest).drop_last() =~= kept(rows, user));
}

/// Adding `user` with one digest and then setting another: the lookup with
/// the new digest gives `user`, the lookup with the old digest gives
/// nothing. This holds whatever the store held before the addition, rows of
/// `user` included.
pub proof fn lemma_add_then_update(
    rows: Seq<Option<Seq<Seq<char>>>>,
    user: Seq<char>,
    first: Seq<char>,
    second: Seq<char>,
)
    requires
        first != second,
    ensures
        ({
            let added = rows.push(credential_row(user, first));
            let after = updated(added, user, second);
            &&& looked_up(after, user, second) == Some(user)
            &&& looked_up(after, user, first).is_none()
            &&& rows_of(after, user) == 1
        }),
{
    let added = rows.push(credential_row(user, first));
    lemma_update_then_lookup(added, user, second, second);
    lemma_update_then_lookup(added, user, second, first);
    lemma_update_leaves_one_row(added, user, second);
}

} // verus!
