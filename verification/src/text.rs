//! Small operations on text that the rest of the library shares.

use vstd::prelude::*;

verus! {

/// The lower-case form of a text, as `str::to_lowercase` computes it.
pub uninterp spec fn lowercased(text: Seq<char>) -> Seq<char>;

/// Calls `str::to_lowercase` of the standard library.
///
/// Trusted: the result is the Unicode lower-case mapping of the argument,
/// which depends on the argument alone and is known here only by its name
/// [`lowercased`].
#[verifier::external_body]
pub(crate) fn to_lowercase(text: &str) -> (lower: String)
    ensures
        lower@ == lowercased(text@),
{
    text.to_lowercase()
}

/// Tells whether two string slices hold the same characters.
pub(crate) fn str_eq(left: &str, right: &str) -> (same: bool)
    ensures
        same == (left@ == right@),
{
    left.to_owned() == right.to_owned()
}

/// The position of the first `needle` in `text`, or the length of `text`
/// where there is none.
pub open spec fn first_index_of(text: Seq<char>, needle: char) -> int
    decreases text.len(),
{
    if text.len() == 0 {
        0
    } else if text[0] == needle {
        0
    } else {
        1 + first_index_of(text.skip(1), needle)
    }
}

/// `first_index_of` is the least position that holds the needle.
pub proof fn first_index_of_is_first(text: Seq<char>, needle: char)
    ensures
        0 <= first_index_of(text, needle) <= text.len(),
        forall|i: int| 0 <= i < first_index_of(text, needle) ==> text[i] != needle,
        first_index_of(text, needle) < text.len() ==> text[first_index_of(text, needle)]
            == needle,
    decreases text.len(),
{
    if text.len() > 0 && text[0] != needle {
        let rest = text.skip(1);
        first_index_of_is_first(rest, needle);
        assert forall|i: int| 0 <= i < first_index_of(text, needle) implies text[i]
            != needle by {
            if i > 0 {
                assert(text[i] == rest[i - 1]);
            }
        }
        let at = first_index_of(rest, needle);
        if at < rest.len() {
            assert(text[at + 1] == rest[at]);
        }
    }
}

/// Any position that holds the first needle is `first_index_of`.
pub proof fn first_index_of_unique(text: Seq<char>, needle: char, at: int)
    requires
        0 <= at <= text.len(),
        forall|i: int| 0 <= i < at ==> text[i] != needle,
        at < text.len() ==> text[at] == needle,
    ensures
        first_index_of(text, needle) == at,
{
    first_index_of_is_first(text, needle);
    let found = first_index_of(text, needle);
    if found < at {
        assert(text[found] != needle);
    } else if at < found {
        assert(text[at] != needle);
    }
}

/// Finds the first `needle` in `text`.
pub fn find_char(text: &str, needle: char) -> (at: usize)
    ensures
        at == first_index_of(text@, needle),
{
    let total = text.unicode_len();
    let mut seen: usize = 0;
    for c in it: text.chars()
        invariant
            seen == it.index(),
            it.seq() == text@,
            total == text@.len(),
            forall|i: int| 0 <= i < seen ==> text@[i] != needle,
    {
        if c == needle {
            proof {
                first_index_of_unique(text@, needle, seen as int);
            }
            return seen;
        }
        seen = seen + 1;
    }
    proof {
        first_index_of_unique(text@, needle, seen as int);
    }
    seen
}

/// The pieces of `text` between occurrences of `separator`, in order. A
/// text without the separator is one piece; two separators in a row have an
/// empty piece between them.
pub open spec fn split_on(text: Seq<char>, separator: char) -> Seq<Seq<char>>
    decreases text.len(),
{
    if text.len() == 0 {
        seq![Seq::empty()]
    } else {
        let before = split_on(text.drop_last(), separator);
        if text.last() == separator {
            before.push(Seq::empty())
        } else {
            before.drop_last().push(before.last().push(text.last()))
        }
    }
}

/// The pieces put together again with `separator` between every two.
pub open spec fn join_with(pieces: Seq<Seq<char>>, separator: char) -> Seq<char>
    decreases pieces.len(),
{
    if pieces.len() == 0 {
        Seq::empty()
    } else if pieces.len() == 1 {
        pieces[0]
    } else {
        join_with(pieces.drop_last(), separator).push(separator) + pieces.last()
    }
}

/// The views of a list of strings, in order.
pub open spec fn texts(strings: Seq<String>) -> Seq<Seq<char>> {
    Seq::new(strings.len(), |i: int| strings[i]@)
}

/// Splits `text` at every `separator`.
pub fn split(text: &str, separator: char) -> (pieces: Vec<String>)
    ensures
        texts(pieces@) == split_on(text@, separator),
        pieces@.len() > 0,
{
    let total = text.unicode_len();
    let mut pieces: Vec<String> = Vec::new();
    let mut start: usize = 0;
    let mut seen: usize = 0;
    proof {
        assert(text@.take(0) =~= Seq::<char>::empty());
        assert(texts(pieces@).push(text@.subrange(0, 0)) =~= seq![Seq::<char>::empty()]);
    }
    for c in it: text.chars()
        invariant
            seen == it.index(),
            it.seq() == text@,
            total == text@.len(),
            start <= seen <= total,
            split_on(text@.take(seen as int), separator) == texts(pieces@).push(
                text@.subrange(start as int, seen as int),
            ),
    {
        let ghost before = texts(pieces@);
        let ghost prefix = text@.take(seen as int);
        let ghost longer = text@.take(seen + 1);
        proof {
            assert(longer.drop_last() =~= prefix);
            assert(longer.last() == c);
        }
        if c == separator {
            let piece = text.substring_char(start, seen).to_owned();
            pieces.push(piece);
            proof {
                assert(texts(pieces@) =~= before.push(text@.subrange(start as int, seen as int)));
                assert(text@.subrange(seen + 1, seen + 1) =~= Seq::<char>::empty());
            }
            start = seen + 1;
        } else {
            proof {
                let current = text@.subrange(start as int, seen as int);
                assert(before.push(current).drop_last() =~= before);
                assert(current.push(c) =~= text@.subrange(start as int, seen + 1));
            }
        }
        seen = seen + 1;
    }
    let ghost before = texts(pieces@);
    let piece = text.substring_char(start, total).to_owned();
    pieces.push(piece);
    proof {
        assert(text@.take(total as int) =~= text@);
        assert(texts(pieces@) =~= before.push(text@.subrange(start as int, total as int)));
    }
    pieces
}

} // verus!
