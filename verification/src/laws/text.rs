//! Laws of text operations.
use crate::text;
use vstd::prelude::*;

verus! {

/// A text begins with a prefix exactly if it is that prefix with something behind it.
pub proof fn law_a_prefix_is_what_something_follows(text: Seq<char>, prefix: Seq<char>)
    ensures
        text::begins_with(text, prefix) <==> exists|rest: Seq<char>|
            text == #[trigger] (prefix + rest),
{
    if text::begins_with(text, prefix) {
        assert(text == prefix + text.skip(prefix.len() as int));
    }
    assert forall|rest: Seq<char>| text == #[trigger] (prefix + rest) implies text::begins_with(
        text,
        prefix,
    ) by {
        assert(text.take(prefix.len() as int) == prefix);
    }
}

/// A part is anything that something may stand before and behind.
pub proof fn law_a_part_has_surroundings(before: Seq<char>, part: Seq<char>, behind: Seq<char>)
    ensures
        text::has_part(before + part + behind, part),
{
    let whole = before + part + behind;
    let at = before.len() as int;
    assert(whole.subrange(at, at + part.len()) == part);
}

/// What occurs in a text has a place there, from which on it stands character for character.
pub proof fn law_a_part_has_a_place(text: Seq<char>, part: Seq<char>)
    requires
        text::has_part(text, part),
    ensures
        exists|at: int|
            0 <= at <= text.len() - part.len() && (forall|i: int|
                #![trigger part[i]]
                0 <= i < part.len() ==> part[i] == text[at + i]) && #[trigger] text.subrange(
                at,
                at + part.len(),
            ) == part,
{
    let at = choose|at: int|
        0 <= at && at + part.len() <= text.len() && #[trigger] text.subrange(at, at + part.len())
            == part;
    assert forall|i: int| 0 <= i < part.len() implies part[i] == text[at + i] by {
        assert(text.subrange(at, at + part.len())[i] == text[at + i]);
    }
}

/// Trimming takes off unwanted characters only, and all of those that stand at the end.
pub proof fn law_trimming_takes_off_the_unwanted_end(text: Seq<char>, unwanted: char)
    ensures
        ({
            let kept = text::trimmed_end(text, unwanted);
            &&& kept.len() <= text.len()
            &&& kept == text.take(kept.len() as int)
            &&& forall|i: int| kept.len() <= i < text.len() ==> text[i] == unwanted
            &&& kept.len() > 0 ==> kept.last() != unwanted
        }),
    decreases text.len(),
{
    if text.len() > 0 && text.last() == unwanted {
        law_trimming_takes_off_the_unwanted_end(text.drop_last(), unwanted);
        let kept = text::trimmed_end(text.drop_last(), unwanted);
        assert(text.take(kept.len() as int) == text.drop_last().take(kept.len() as int));
        assert forall|i: int| kept.len() <= i < text.len() implies text[i] == unwanted by {
            if i < text.len() - 1 {
                assert(text.drop_last()[i] == text[i]);
            }
        }
    } else {
        assert(text.take(text.len() as int) == text);
    }
}

/// Two texts compare as the same exactly if they have the same characters.
pub proof fn law_same_means_equal(a: &str, b: &str, r: bool)
    requires
        call_ensures(text::same, (a, b), r),
    ensures
        r <==> a@.len() == b@.len() && forall|i: int| 0 <= i < a@.len() ==> a@[i] == b@[i],
{
    if a@.len() == b@.len() && forall|i: int| 0 <= i < a@.len() ==> a@[i] == b@[i] {
        assert(a@ =~= b@);
    }
}

/// A split at the last delimiter is told exactly where there is a delimiter. The sides and the
/// delimiter make up the text, and there is no delimiter to the right of it.
pub proof fn law_a_split_is_at_the_last_delimiter<'a>(
    text: &'a str,
    delimiter: char,
    r: Option<(&'a str, &'a str)>,
)
    requires
        call_ensures(text::split_at_last, (text, delimiter), r),
    ensures
        r is Some <==> text@.contains(delimiter),
        r matches Some((before, after)) ==> text@ == before@ + seq![delimiter] + after@
            && !after@.contains(delimiter),
{
    text::lemma_parted_at_last(text@, delimiter);
    if let Some((before, after)) = r {
        assert(before@.push(delimiter) == before@ + seq![delimiter]);
        assert(text@[before@.len() as int] == delimiter);
    }
}

} // verus!
