//! The address whitelist: one row per admitted address. The whitelist fails
//! closed: what cannot be read admits nobody.

use vstd::prelude::*;
use crate::rows::{csv_rows, read_rows, row_view, rows_view};
use crate::text::texts;

verus! {

/// The byte that frames the fields of a whitelist row: a comma.
pub const FIELD_DELIMITER: u8 = 0x2C;

/// The number of fields in a whitelist row.
pub const WHITELIST_FIELDS: usize = 1;

/// The address that a row admits. A malformed row, or a row that does not
/// have exactly one field, admits none.
pub open spec fn entry_of_row(row: Option<Seq<Seq<char>>>) -> Option<Seq<char>> {
    match row {
        Some(fields) => if fields.len() == WHITELIST_FIELDS {
            Some(fields[0])
        } else {
            None
        },
        None => None,
    }
}

/// Whether `rows` admit `ip`, looking from the first row on: the first row
/// that holds exactly `ip` admits it. A row that admits no address ends the
/// search with the address refused, whatever comes after it.
pub open spec fn member(rows: Seq<Option<Seq<Seq<char>>>>, ip: Seq<char>) -> bool
    decreases rows.len(),
{
    if rows.len() == 0 {
        false
    } else {
        match entry_of_row(rows[0]) {
            None => false,
            Some(entry) => entry == ip || member(rows.skip(1), ip),
        }
    }
}

/// Whether `rows` admit `ip`.
pub fn is_member(rows: &Vec<Option<Vec<String>>>, ip: &str) -> (yes: bool)
    ensures
        yes == member(rows_view(rows@), ip@),
{
    let wanted = ip.to_owned();
    let mut i: usize = 0;
    assert(rows_view(rows@).skip(0) =~= rows_view(rows@));
    while i < rows.len()
        invariant
            i <= rows.len(),
            wanted@ == ip@,
            member(rows_view(rows@), ip@) == member(rows_view(rows@).skip(i as int), ip@),
        decreases rows.len() - i,
    {
        proof {
            let rest = rows_view(rows@).skip(i as int);
            assert(rest.skip(1) =~= rows_view(rows@).skip(i + 1));
        }
        match &rows[i] {
            None => {
                return false;
            },
            Some(fields) => {
                if fields.len() != WHITELIST_FIELDS {
                    return false;
                }
                if fields[0] == wanted {
                    return true;
                }
            },
        }
        i += 1;
    }
    false
}

/// The whitelist: the rows of the whitelist file, in file order.
pub struct WhitelistDatabase {
    path: String,
    rows: Vec<Option<Vec<String>>>,
}

impl WhitelistDatabase {
    /// The rows of the whitelist.
    pub closed spec fn rows(&self) -> Seq<Option<Seq<Seq<char>>>> {
        rows_view(self.rows@)
    }

    /// Where the whitelist file lives.
    pub closed spec fn location(&self) -> Seq<char> {
        self.path@
    }

    /// An empty whitelist for the file at `path`. It admits nobody.
    pub fn new(path: String) -> (db: Self)
        ensures
            db.location() == path@,
            db.rows() == Seq::<Option<Seq<Seq<char>>>>::empty(),
    {
        let db = WhitelistDatabase { path, rows: Vec::new() };
        db
    }

    /// A whitelist for the file at `path` that holds the given rows.
    pub fn with_rows(path: String, rows: Vec<Option<Vec<String>>>) -> (db: Self)
        ensures
            db.location() == path@,
            db.rows() == rows_view(rows@),
    {
        WhitelistDatabase { path, rows }
    }

    /// Where the whitelist file lives.
    pub fn path(&self) -> (path: &str)
        ensures
            path@ == self.location(),
    {
        self.path.as_str()
    }

    /// Replaces the rows by those of the whitelist file, whose bytes are
    /// `data`.
    pub fn load(&mut self, data: &[u8])
        ensures
            final(self).location() == old(self).location(),
            final(self).rows() == csv_rows(data@, FIELD_DELIMITER),
    {
        self.rows = read_rows(data, FIELD_DELIMITER);
    }

    /// Records that the whitelist file could not be read: the whitelist
    /// holds no row and admits nobody.
    pub fn unreadable(&mut self)
        ensures
            final(self).location() == old(self).location(),
            final(self).rows() == Seq::<Option<Seq<Seq<char>>>>::empty(),
            forall|ip: Seq<char>| !member(final(self).rows(), ip),
    {
        self.rows = Vec::new();
    }

    /// Whether the whitelist admits `ip`.
    pub fn is_allowed(&self, ip: &str) -> (allowed: bool)
        ensures
            allowed == member(self.rows(), ip@),
    {
        is_member(&self.rows, ip)
    }
}

/// A whitelist admits only addresses that one of its rows holds.
pub proof fn lemma_member_is_listed(rows: Seq<Option<Seq<Seq<char>>>>, ip: Seq<char>)
    requires
        member(rows, ip),
    ensures
        exists|k: int| 0 <= k < rows.len() && entry_of_row(#[trigger] rows[k]) == Some(ip),
    decreases rows.len(),
{
    if entry_of_row(rows[0]) != Some(ip) {
        lemma_member_is_listed(rows.skip(1), ip);
        let k = choose|k: int|
            0 <= k < rows.skip(1).len() && entry_of_row(#[trigger] rows.skip(1)[k]) == Some(ip);
    }
}

/// Fail closed: a row that admits no address refuses every address that no
/// row before it holds.
pub proof fn lemma_corrupt_row_refuses(rows: Seq<Option<Seq<Seq<char>>>>, k: int, ip: Seq<char>)
    requires
        0 <= k < rows.len(),
        entry_of_row(rows[k]).is_none(),
        forall|j: int| 0 <= j < k ==> entry_of_row(#[trigger] rows[j]) != Some(ip),
    ensures
        !member(rows, ip),
    decreases k,
{
    if k > 0 {
        assert forall|j: int| 0 <= j < k - 1 implies entry_of_row(#[trigger] rows.skip(1)[j])
            != Some(ip) by {}
        lemma_corrupt_row_refuses(rows.skip(1), k - 1, ip);
    }
}

/// Fail closed: a whitelist whose first row admits no address refuses every
/// address.
pub proof fn lemma_corrupt_start_refuses_all(rows: Seq<Option<Seq<Seq<char>>>>, ip: Seq<char>)
    requires
        rows.len() > 0,
        entry_of_row(rows[0]).is_none(),
    ensures
        !member(rows, ip),
{
}

} // verus!
