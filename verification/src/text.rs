//! Text operations on characters: comparison, splitting at the last delimiter, trimming.
use vstd::prelude::*;

verus! {

/// Does `text` begin with `prefix`?
pub open spec fn begins_with(text: Seq<char>, prefix: Seq<char>) -> bool {
    prefix.len() <= text.len() && text.take(prefix.len() as int) == prefix
}

/// Does `part` occur somewhere in `text`, in one piece?
pub open spec fn has_part(text: Seq<char>, part: Seq<char>) -> bool {
    exists|at: int|
        0 <= at && at + part.len() <= text.len() && #[trigger] text.subrange(
            at,
            at + part.len(),
        ) == part
}

/// `text` without the run of `unwanted` characters at its end.
pub open spec fn trimmed_end(text: Seq<char>, unwanted: char) -> Seq<char>
    decreases text.len(),
{
    if text.len() > 0 && text.last() == unwanted {
        trimmed_end(text.drop_last(), unwanted)
    } else {
        text
    }
}

/// Compares two texts character by character.
pub fn same(a: &str, b: &str) -> (r: bool)
    ensures
        r == (a@ == b@),
{
    let a: String = a.to_owned();
    let b: String = b.to_owned();
    a == b
}

/// Tests whether `text` begins with `prefix`.
pub fn starts_with(text: &str, prefix: &str) -> (r: bool)
    ensures
        r == begins_with(text@, prefix@),
{
    let n: usize = prefix.unicode_len();
    n <= text.unicode_len() && same(text.substring_char(0, n), prefix)
}

/// Removes every `unwanted` character from the end of `text`.
pub fn trim_end<'a>(text: &'a str, unwanted: char) -> (r: &'a str)
    ensures
        r@ == trimmed_end(text@, unwanted),
{
    let length: usize = text.unicode_len();
    let mut end: usize = 0;
    let mut at: usize = 0;
    for c in it: text.chars()
        invariant
            it.seq() == text@,
            length == text@.len(),
            at == it.index(),
            end <= at <= length,
            trimmed_end(text@.take(at as int), unwanted) == text@.take(end as int),
    {
        proof {
            assert(text@.take(at + 1).drop_last() == text@.take(at as int));
        }
        at = at + 1;
        if c != unwanted {
            end = at;
        }
    }
    proof {
        assert(text@.take(at as int) == text@);
    }
    text.substring_char(0, end)
}

/// The two sides of the last `delimiter` in `text`, or `None` where there is none.
pub open spec fn parted_at_last(text: Seq<char>, delimiter: char) -> Option<
    (Seq<char>, Seq<char>),
>
    decreases text.len(),
{
    if text.len() == 0 {
        None
    } else if text.last() == delimiter {
        Some((text.drop_last(), Seq::empty()))
    } else {
        match parted_at_last(text.drop_last(), delimiter) {
            Some((before, after)) => Some((before, after.push(text.last()))),
            None => None,
        }
    }
}

/// Splits `text` at the last `delimiter`, which belongs to neither side.
pub fn split_at_last<'a>(text: &'a str, delimiter: char) -> (r: Option<(&'a str, &'a str)>)
    ensures
        match r {
            Some((before, after)) => parted_at_last(text@, delimiter) == Some((before@, after@)),
            None => parted_at_last(text@, delimiter) is None,
        },
{
    let length: usize = text.unicode_len();
    let mut found: Option<usize> = None;
    let mut at: usize = 0;
    for c in it: text.chars()
        invariant
            it.seq() == text@,
            length == text@.len(),
            at == it.index(),
            at <= length,
            match found {
                Some(i) => {
                    &&& i < at
                    &&& parted_at_last(text@.take(at as int), delimiter) == Some(
                        (text@.take(i as int), text@.subrange(i + 1, at as int)),
                    )
                },
                None => parted_at_last(text@.take(at as int), delimiter) is None,
            },
    {
        proof {
            let next = text@.take(at + 1);
            assert(next.drop_last() == text@.take(at as int));
            assert(next.last() == text@[at as int]);
            if let Some(i) = found {
                assert(text@.subrange(i + 1, at as int).push(text@[at as int]) == text@.subrange(
                    i + 1,
                    at + 1,
                ));
            }
            assert(text@.subrange(at + 1, at + 1) == Seq::<char>::empty());
        }
        if c == delimiter {
            found = Some(at);
        }
        at = at + 1;
    }
    proof {
        assert(text@.take(at as int) == text@);
    }
    match found {
        Some(i) => Some((text.substring_char(0, i), text.substring_char(i + 1, length))),
        None => None,
    }
}

/// A split at the last delimiter loses nothing: the sides and the delimiter make up the text,
/// and the delimiter does not occur again to the right of where it was split.
pub proof fn lemma_parted_at_last(text: Seq<char>, delimiter: char)
    ensures
        match parted_at_last(text, delimiter) {
            Some((before, after)) => {
                &&& text == before.push(delimiter) + after
                &&& !after.contains(delimiter)
            },
            None => !text.contains(delimiter),
        },
    decreases text.len(),
{
    if text.len() > 0 && text.last() != delimiter {
        lemma_parted_at_last(text.drop_last(), delimiter);
        assert(text == text.drop_last().push(text.last()));
        match parted_at_last(text.drop_last(), delimiter) {
            Some((before, after)) => {
                assert forall|i: int| 0 <= i < after.push(text.last()).len() implies after.push(
                    text.last(),
                )[i] != delimiter by {
                    if i < after.len() {
                        assert(after.contains(after[i]));
                    }
                }
            },
            None => {
                assert forall|i: int| 0 <= i < text.len() implies text[i] != delimiter by {
                    if i < text.len() - 1 {
                        assert(text.drop_last().contains(text.drop_last()[i]));
                    }
                }
            },
        }
    }
}

} // verus!
