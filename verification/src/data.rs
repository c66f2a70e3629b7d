//! The three stores of the server side by side.

use vstd::prelude::*;
use crate::passwords::{credential_row, looked_up, updated, PasswordDatabase};
use crate::passwords::encoded;
use crate::rows::csv_line;
use crate::songs::{found, json_songs, listed, song_fields, SongDatabase, SongEntry};
use crate::whitelist::{member, WhitelistDatabase};

verus! {

/// The song catalog, the credential store and the address whitelist.
pub struct Database {
    pub songs: SongDatabase,
    pub passwords: PasswordDatabase,
    pub whitelist: WhitelistDatabase,
}

impl Database {
    /// Three empty stores for the files at the given paths.
    pub fn open(song_path: String, password_path: String, whitelist_path: String) -> (db: Self)
        ensures
            db.songs.location() == song_path@,
            db.passwords.location() == password_path@,
            db.whitelist.location() == whitelist_path@,
            db.songs.rows().len() == 0,
            db.passwords.rows().len() == 0,
            db.whitelist.rows().len() == 0,
    {
        Database {
            songs: SongDatabase::new(song_path),
            passwords: PasswordDatabase::new(password_path),
            whitelist: WhitelistDatabase::new(whitelist_path),
        }
    }

    /// Whether the whitelist admits `ip`.
    pub fn is_allowed(&self, ip: &str) -> (allowed: bool)
        ensures
            allowed == member(self.whitelist.rows(), ip@),
    {
        self.whitelist.is_allowed(ip)
    }

    /// The first song of the catalog with the given title and artist.
    pub fn get_song_by_title_and_artist(&self, title: &str, artist: &str) -> (song: Option<
        SongEntry,
    >)
        ensures
            match song {
                Some(s) => found(self.songs.rows(), title@, artist@) == Some(s@),
                None => found(self.songs.rows(), title@, artist@).is_none(),
            },
    {
        self.songs.get_song_by_title_and_artist(title, artist)
    }

    /// Every song of the catalog as one JSON array.
    pub fn get_all_json(&self) -> (json: String)
        ensures
            json@ == json_songs(listed(self.songs.rows())),
    {
        self.songs.get_all_json()
    }

    /// Appends `song` to the catalog and returns the bytes to append to the
    /// catalog file. The other stores are untouched.
    pub fn add_song(&mut self, song: &SongEntry) -> (line: Vec<u8>)
        ensures
            final(self).songs.location() == old(self).songs.location(),
            final(self).songs.rows() == old(self).songs.rows().push(Some(song_fields(song@))),
            line@ == csv_line(song_fields(song@), crate::songs::FIELD_DELIMITER),
            final(self).passwords == old(self).passwords,
            final(self).whitelist == old(self).whitelist,
    {
        self.songs.add_song(song)
    }

    /// Appends a credential row for `user` and returns the bytes to append
    /// to the credential file. The other stores are untouched.
    pub fn add_user(&mut self, user: &str, base64_pass: &str) -> (line: Vec<u8>)
        ensures
            final(self).passwords.location() == old(self).passwords.location(),
            final(self).passwords.rows() == old(self).passwords.rows().push(
                credential_row(user@, base64_pass@),
            ),
            line@ == csv_line(seq![user@, base64_pass@], crate::passwords::FIELD_DELIMITER),
            final(self).songs == old(self).songs,
            final(self).whitelist == old(self).whitelist,
    {
        self.passwords.add_user(user, base64_pass)
    }

    /// The stored name of `user` if the credential store holds `user` with
    /// the digest `password`.
    pub fn get_user(&self, user: &str, password: &str) -> (name: Option<String>)
        ensures
            match name {
                Some(n) => looked_up(self.passwords.rows(), user@, password@) == Some(n@),
                None => looked_up(self.passwords.rows(), user@, password@).is_none(),
            },
    {
        self.passwords.get_user(user, password)
    }

    /// Sets the password digest of `user` and returns the bytes of the file
    /// that replaces the credential file. The other stores are untouched.
    pub fn update_user(&mut self, user: &str, base64_pass: &str) -> (content: Vec<u8>)
        ensures
            final(self).passwords.location() == old(self).passwords.location(),
            final(self).passwords.rows() == updated(
                old(self).passwords.rows(),
                user@,
                base64_pass@,
            ),
            content@ == encoded(final(self).passwords.rows(), crate::passwords::FIELD_DELIMITER),
            final(self).songs == old(self).songs,
            final(self).whitelist == old(self).whitelist,
    {
        self.passwords.update_user(user, base64_pass)
    }
}

} // verus!
