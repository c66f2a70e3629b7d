//! Byte ranges of a resource: reading a `Range` header and computing the
//! window of bytes that answers it.

use vstd::prelude::*;
use vstd::slice::slice_subrange;
use crate::decimal::{decimal, parse_digits, parsed_u64, push_decimal};
use crate::text::{chars_of, find_first, split_first};

verus! {

/// What a `Range` header asks for.
#[derive(Clone, Copy, Debug, PartialEq, Eq)]
pub enum HttpRange {
    /// `unit=start-end`
    Inclusive { start: u64, end: u64 },
    /// `unit=start-`
    Open { start: u64 },
    /// `unit=-length`: the trailing `length` bytes.
    Suffix { length: u64 },
}

/// Why a `Range` header could not be read.
#[derive(Clone, Copy, Debug, PartialEq, Eq)]
pub enum RangeError {
    /// The `=` or the `-` is missing.
    InvalidFormat,
    /// A bound is not an unsigned decimal number of 64 bits.
    InvalidNumber,
}

/// The meaning of a `Range` header value.
///
/// The value is cut at its first `=`; what stands before it is not looked
/// at. The rest is cut at its first `-` into a lower and an upper bound.
/// An empty upper bound gives an open range, an empty lower bound with an
/// upper bound gives a suffix range, and two bounds give an inclusive
/// range.
pub open spec fn parsed_range(value: Seq<char>) -> Result<HttpRange, RangeError> {
    match split_first(value, '=') {
        None => Err(RangeError::InvalidFormat),
        Some((_, bounds)) => match split_first(bounds, '-') {
            None => Err(RangeError::InvalidFormat),
            Some((from, to)) => if to.len() == 0 {
                match parsed_u64(from) {
                    Some(start) => Ok(HttpRange::Open { start }),
                    None => Err(RangeError::InvalidNumber),
                }
            } else if from.len() == 0 {
                match parsed_u64(to) {
                    Some(length) => Ok(HttpRange::Suffix { length }),
                    None => Err(RangeError::InvalidNumber),
                }
            } else {
                match (parsed_u64(from), parsed_u64(to)) {
                    (Some(start), Some(end)) => Ok(HttpRange::Inclusive { start, end }),
                    _ => Err(RangeError::InvalidNumber),
                }
            },
        },
    }
}

/// Reads the value of a `Range` header.
pub fn parse_range_header(value: &str) -> (parsed: Result<HttpRange, RangeError>)
    ensures
        parsed == parsed_range(value@),
{
    let chars = chars_of(value);
    let all = chars.as_slice();
    let equals = match find_first(all, '=') {
        Some(i) => i,
        None => {
            return Err(RangeError::InvalidFormat);
        },
    };
    let bounds = slice_subrange(all, equals + 1, all.len());
    let dash = match find_first(bounds, '-') {
        Some(i) => i,
        None => {
            return Err(RangeError::InvalidFormat);
        },
    };
    let from = slice_subrange(bounds, 0, dash);
    let to = slice_subrange(bounds, dash + 1, bounds.len());
    assert(to@ =~= bounds@.skip(dash + 1));
    if to.len() == 0 {
        match parse_digits(from) {
            Some(start) => Ok(HttpRange::Open { start }),
            None => Err(RangeError::InvalidNumber),
        }
    } else if from.len() == 0 {
        match parse_digits(to) {
            Some(length) => Ok(HttpRange::Suffix { length }),
            None => Err(RangeError::InvalidNumber),
        }
    } else {
        match (parse_digits(from), parse_digits(to)) {
            (Some(start), Some(end)) => Ok(HttpRange::Inclusive { start, end }),
            _ => Err(RangeError::InvalidNumber),
        }
    }
}

/// A window of bytes of a resource: it begins at `start` and holds
/// `end - start` bytes.
#[derive(Clone, Copy, Debug, PartialEq, Eq)]
pub struct Window {
    pub start: u64,
    pub end: u64,
}

impl Window {
    /// The number of bytes in the window.
    pub open spec fn size(self) -> int {
        self.end - self.start
    }

    /// The number of bytes in the window.
    pub fn len(&self) -> (n: u64)
        requires
            self.start <= self.end,
        ensures
            n == self.size(),
    {
        self.end - self.start
    }
}

/// The window that answers `range` on a resource of `total` bytes, if
/// there is one.
///
/// An inclusive range gives its own bounds, whatever `total` is. An open
/// range runs from its start to `total`. A suffix range is the last `length`
/// bytes: it runs from `total - length` to `total`. A range whose window
/// would begin after its end has no window.
pub open spec fn window_of(range: HttpRange, total: u64) -> Option<Window> {
    match range {
        HttpRange::Inclusive { start, end } => if start <= end {
            Some(Window { start, end })
        } else {
            None
        },
        HttpRange::Open { start } => if start <= total {
            Some(Window { start, end: total })
        } else {
            None
        },
        HttpRange::Suffix { length } => if length <= total {
            Some(Window { start: (total - length) as u64, end: total })
        } else {
            None
        },
    }
}

/// Computes the window that answers `range` on a resource of `total` bytes.
pub fn window(range: HttpRange, total: u64) -> (w: Option<Window>)
    ensures
        w == window_of(range, total),
        w matches Some(found) ==> found.start <= found.end,
{
    match range {
        HttpRange::Inclusive { start, end } => if start <= end {
            Some(Window { start, end })
        } else {
            None
        },
        HttpRange::Open { start } => if start <= total {
            Some(Window { start, end: total })
        } else {
            None
        },
        HttpRange::Suffix { length } => if length <= total {
            Some(Window { start: total - length, end: total })
        } else {
            None
        },
    }
}

/// The value of the `Content-Range` header for window `w` of a resource of
/// `total` bytes: `bytes start-end/total`.
pub open spec fn content_range(w: Window, total: u64) -> Seq<char> {
    seq!['b', 'y', 't', 'e', 's', ' '] + decimal(w.start as nat) + seq!['-'] + decimal(
        w.end as nat,
    ) + seq!['/'] + decimal(total as nat)
}

/// Writes the value of the `Content-Range` header.
pub fn content_range_text(w: Window, total: u64) -> (text: String)
    ensures
        text@ == content_range(w, total),
{
    let mut text = String::new();
    text.push('b');
    text.push('y');
    text.push('t');
    text.push('e');
    text.push('s');
    text.push(' ');
    push_decimal(&mut text, w.start);
    text.push('-');
    push_decimal(&mut text, w.end);
    text.push('/');
    push_decimal(&mut text, total);
    text
}

} // verus!
