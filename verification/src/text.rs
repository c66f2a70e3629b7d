//! Texts as sequences of characters: converting, splitting and joining,
//! finding a character, and comparing.

use vstd::prelude::*;

verus! {

/// `String::push` appends one character to the end of the string.
pub assume_specification[ String::push ](s: &mut String, c: char)
    ensures
        final(s)@ == old(s)@.push(c),
;

/// `String::push_str` appends `tail` to the end of the string.
pub assume_specification[ String::push_str ](s: &mut String, tail: &str)
    ensures
        final(s)@ == old(s)@ + tail@,
;

/// The characters of `s`, in order.
pub fn chars_of(s: &str) -> (chars: Vec<char>)
    ensures
        chars@ == s@,
{
    let mut chars: Vec<char> = Vec::new();
    for c in it: s.chars()
        invariant
            it.seq() == s@,
            chars@ == it.seq().take(it.index() as int),
    {
        chars.push(c);
    }
    chars
}

/// The string made of `chars`, in order.
pub fn text_of(chars: &[char]) -> (s: String)
    ensures
        s@ == chars@,
{
    let mut s = String::new();
    let mut i: usize = 0;
    while i < chars.len()
        invariant
            i <= chars.len(),
            s@ == chars@.take(i as int),
        decreases chars.len() - i,
    {
        s.push(chars[i]);
        i += 1;
    }
    s
}

/// The pieces of `s` between occurrences of `sep`.
///
/// There is always at least one piece: a text without `sep` is its own
/// single piece, and each `sep` closes the current piece and opens a new,
/// empty one.
pub open spec fn split_on(s: Seq<char>, sep: char) -> Seq<Seq<char>>
    decreases s.len(),
{
    if s.len() == 0 {
        seq![Seq::<char>::empty()]
    } else {
        let before = split_on(s.drop_last(), sep);
        if s.last() == sep {
            before.push(Seq::<char>::empty())
        } else {
            before.drop_last().push(before.last().push(s.last()))
        }
    }
}

/// The items of `items` written one after another with `sep` between
/// neighbours.
pub open spec fn join_with(items: Seq<Seq<char>>, sep: char) -> Seq<char>
    decreases items.len(),
{
    if items.len() == 0 {
        Seq::<char>::empty()
    } else if items.len() == 1 {
        items[0]
    } else {
        join_with(items.drop_last(), sep).push(sep) + items.last()
    }
}

/// No character of `s` is `sep`.
pub open spec fn free_of(s: Seq<char>, sep: char) -> bool {
    forall|i: int| 0 <= i < s.len() ==> s[i] != sep
}

/// The view of a list of strings: the list of their views.
pub open spec fn texts(items: Seq<String>) -> Seq<Seq<char>> {
    items.map_values(|s: String| s@)
}

/// Splitting always gives at least one piece.
pub proof fn lemma_split_nonempty(s: Seq<char>, sep: char)
    ensures
        split_on(s, sep).len() >= 1,
    decreases s.len(),
{
    if s.len() > 0 {
        lemma_split_nonempty(s.drop_last(), sep);
    }
}

/// Splits `s` at every `sep`.
pub fn split(s: &str, sep: char) -> (pieces: Vec<String>)
    ensures
        texts(pieces@) == split_on(s@, sep),
{
    let chars = chars_of(s);
    let mut pieces: Vec<String> = Vec::new();
    let mut current = String::new();
    let mut i: usize = 0;
    while i < chars.len()
        invariant
            i <= chars.len(),
            chars@ == s@,
            texts(pieces@).push(current@) == split_on(chars@.take(i as int), sep),
        decreases chars.len() - i,
    {
        let c = chars[i];
        proof {
            assert(chars@.take(i + 1).drop_last() =~= chars@.take(i as int));
        }
        if c == sep {
            pieces.push(current);
            current = String::new();
        } else {
            current.push(c);
        }
        i += 1;
    }
    proof {
        assert(chars@.take(i as int) =~= chars@);
    }
    pieces.push(current);
    pieces
}

/// Joins `items` with `sep` between neighbours.
pub fn join(items: &Vec<String>, sep: char) -> (joined: String)
    ensures
        joined@ == join_with(texts(items@), sep),
{
    let mut joined = String::new();
    let mut i: usize = 0;
    while i < items.len()
        invariant
            i <= items.len(),
            joined@ == join_with(texts(items@).take(i as int), sep),
        decreases items.len() - i,
    {
        proof {
            assert(texts(items@).take(i + 1).drop_last() =~= texts(items@).take(i as int));
        }
        if i > 0 {
            joined.push(sep);
        }
        joined.push_str(items[i].as_str());
        i += 1;
    }
    proof {
        assert(texts(items@).take(i as int) =~= texts(items@));
    }
    joined
}

/// `i` is the place of the first `sep` in `s`.
pub open spec fn first_at(s: Seq<char>, sep: char, i: int) -> bool {
    &&& 0 <= i < s.len()
    &&& s[i] == sep
    &&& free_of(s.take(i), sep)
}

/// `s` cut at its first `sep`: what stands before it and what stands after
/// it. A text without `sep` cannot be cut.
pub open spec fn split_first(s: Seq<char>, sep: char) -> Option<(Seq<char>, Seq<char>)> {
    if exists|i: int| first_at(s, sep, i) {
        let i = choose|i: int| first_at(s, sep, i);
        Some((s.take(i), s.skip(i + 1)))
    } else {
        None
    }
}

/// A text has at most one first `sep`.
pub proof fn lemma_first_at_unique(s: Seq<char>, sep: char, i: int, j: int)
    requires
        first_at(s, sep, i),
        first_at(s, sep, j),
    ensures
        i == j,
{
    if i < j {
        assert(s.take(j)[i] == s[i]);
    } else if j < i {
        assert(s.take(i)[j] == s[j]);
    }
}

/// The place of the first `sep` in `chars`, if there is one.
pub fn find_first(chars: &[char], sep: char) -> (place: Option<usize>)
    ensures
        match place {
            Some(i) => first_at(chars@, sep, i as int) && split_first(chars@, sep) == Some(
                (chars@.take(i as int), chars@.skip(i + 1)),
            ),
            None => free_of(chars@, sep) && split_first(chars@, sep).is_none(),
        },
{
    let mut i: usize = 0;
    while i < chars.len()
        invariant
            i <= chars.len(),
            free_of(chars@.take(i as int), sep),
        decreases chars.len() - i,
    {
        if chars[i] == sep {
            proof {
                assert(first_at(chars@, sep, i as int));
                let j = choose|j: int| first_at(chars@, sep, j);
                lemma_first_at_unique(chars@, sep, i as int, j);
            }
            return Some(i);
        }
        proof {
            let next = chars@.take(i + 1);
            assert forall|k: int| 0 <= k < next.len() implies next[k] != sep by {}
        }
        i += 1;
    }
    proof {
        assert(chars@.take(i as int) =~= chars@);
        assert forall|j: int| !first_at(chars@, sep, j) by {}
    }
    None
}

/// Splitting sees a text without `sep` as one more stretch of the last
/// piece.
pub proof fn lemma_split_extends_last(s: Seq<char>, tail: Seq<char>, sep: char)
    requires
        free_of(tail, sep),
    ensures
        split_on(s + tail, sep) == split_on(s, sep).drop_last().push(
            split_on(s, sep).last() + tail,
        ),
    decreases tail.len(),
{
    lemma_split_nonempty(s, sep);
    let pieces = split_on(s, sep);
    if tail.len() > 0 {
        let shorter = tail.drop_last();
        assert forall|i: int| 0 <= i < shorter.len() implies shorter[i] != sep by {}
        lemma_split_extends_last(s, shorter, sep);
        assert((s + tail).drop_last() =~= s + shorter);
        assert((pieces.last() + shorter).push(tail.last()) =~= pieces.last() + tail);
    }
}

/// Splitting undoes joining: a list of at least one item, none of which
/// holds `sep`, comes back from its joined text item for item.
pub proof fn lemma_split_join(items: Seq<Seq<char>>, sep: char)
    requires
        items.len() >= 1,
        forall|i: int| 0 <= i < items.len() ==> free_of(#[trigger] items[i], sep),
    ensures
        split_on(join_with(items, sep), sep) == items,
    decreases items.len(),
{
    if items.len() == 1 {
        let only = items[0];
        lemma_split_extends_last(Seq::<char>::empty(), only, sep);
    } else {
        let init = items.drop_last();
        assert forall|i: int| 0 <= i < init.len() implies free_of(#[trigger] init[i], sep) by {}
        lemma_split_join(init, sep);
        let head = join_with(init, sep).push(sep);
        assert(head.drop_last() =~= join_with(init, sep));
        lemma_split_extends_last(head, items.last(), sep);
    }
}

/// Joining two or more items gives a text that holds `sep`, so it is not
/// empty.
pub proof fn lemma_join_of_many(items: Seq<Seq<char>>, sep: char)
    requires
        items.len() >= 2,
    ensures
        join_with(items, sep).len() >= 1,
{
}

/// `s` begins with `head`.
pub open spec fn starts_with(s: Seq<char>, head: Seq<char>) -> bool {
    s.len() >= head.len() && s.take(head.len() as int) == head
}

/// `s` ends with `tail`.
pub open spec fn ends_with(s: Seq<char>, tail: Seq<char>) -> bool {
    s.len() >= tail.len() && s.skip(s.len() - tail.len()) == tail
}

/// Whether the characters of `chars` from place `from` on begin with
/// `part`.
fn matches_at(chars: &[char], from: usize, part: &[char]) -> (yes: bool)
    requires
        from + part@.len() <= chars@.len(),
    ensures
        yes == (chars@.subrange(from as int, from + part@.len()) == part@),
{
    let ghost stretch = chars@.subrange(from as int, from + part@.len());
    let total = chars.len();
    let mut i: usize = 0;
    while i < part.len()
        invariant
            i <= part.len(),
            total == chars@.len(),
            from + part@.len() <= chars@.len(),
            stretch == chars@.subrange(from as int, from + part@.len()),
            forall|k: int| 0 <= k < i ==> stretch[k] == part@[k],
        decreases part.len() - i,
    {
        if chars[from + i] != part[i] {
            return false;
        }
        i += 1;
    }
    assert(stretch =~= part@);
    true
}

/// Whether `chars` begin with `head`.
pub fn has_prefix(chars: &[char], head: &str) -> (yes: bool)
    ensures
        yes == starts_with(chars@, head@),
{
    let part = chars_of(head);
    if part.len() > chars.len() {
        return false;
    }
    matches_at(chars, 0, part.as_slice())
}

/// Whether `chars` end with `tail`.
pub fn has_suffix(chars: &[char], tail: &str) -> (yes: bool)
    ensures
        yes == ends_with(chars@, tail@),
{
    let part = chars_of(tail);
    if part.len() > chars.len() {
        return false;
    }
    let from = chars.len() - part.len();
    matches_at(chars, from, part.as_slice())
}

/// Whether `chars` are the characters of `text`.
pub fn is_text(chars: &[char], text: &str) -> (yes: bool)
    ensures
        yes == (chars@ == text@),
{
    let part = chars_of(text);
    if part.len() != chars.len() {
        return false;
    }
    assert(chars@ =~= chars@.subrange(0, part@.len() as int));
    matches_at(chars, 0, part.as_slice())
}

/// Whether two texts are the same. Texts of one length are compared to
/// their end, whatever they hold, so that the time taken does not tell where
/// they differ.
pub fn same_text(a: &str, b: &str) -> (same: bool)
    ensures
        same == (a@ == b@),
{
    let left = chars_of(a);
    let right = chars_of(b);
    if left.len() != right.len() {
        return false;
    }
    let mut differences: u32 = 0;
    let mut i: usize = 0;
    assert(left@.take(0) =~= right@.take(0));
    while i < left.len()
        invariant
            i <= left.len(),
            left.len() == right.len(),
            (differences == 0) == (left@.take(i as int) == right@.take(i as int)),
        decreases left.len() - i,
    {
        let x: u32 = left[i] as u32;
        let y: u32 = right[i] as u32;
        let ghost before = differences;
        differences = differences | (x ^ y);
        proof {
            assert(((before | (x ^ y)) == 0) == (before == 0 && x == y)) by (bit_vector);
            let l = left@.take(i + 1);
            let r = right@.take(i + 1);
            assert(l.drop_last() =~= left@.take(i as int));
            assert(r.drop_last() =~= right@.take(i as int));
            assert(l.last() == left@[i as int] && r.last() == right@[i as int]);
            if x == y {
                vstd::utf8::char_u32_cast(left@[i as int], x);
                vstd::utf8::char_u32_cast(right@[i as int], y);
            }
            if before == 0 && x == y {
                assert(l =~= r);
            }
        }
        i += 1;
    }
    assert(left@.take(i as int) =~= left@ && right@.take(i as int) =~= right@);
    differences == 0
}

} // verus!
