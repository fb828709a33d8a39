//! Finding the value that follows a flag in an argument list.

use vstd::prelude::*;
use vstd::string::*;

verus! {

/// Signals that a flag was found as the last token, with no value after it.
#[derive(Clone, Copy, Debug, PartialEq, Eq, Structural)]
pub struct MissingValue;

/// The argument list as a sequence of tokens, each a sequence of characters.
pub open spec fn tokens(args: Seq<String>) -> Seq<Seq<char>> {
    Seq::new(args.len(), |i: int| args[i]@)
}

/// `i` is the position of the first token equal to `tag`.
pub open spec fn is_first_occurrence(tokens: Seq<Seq<char>>, tag: Seq<char>, i: int) -> bool {
    &&& 0 <= i < tokens.len()
    &&& tokens[i] == tag
    &&& forall|j: int| 0 <= j < i ==> tokens[j] != tag
}

/// The position of the first token equal to `tag`, if there is one.
pub open spec fn first_occurrence(tokens: Seq<Seq<char>>, tag: Seq<char>) -> Option<int> {
    if exists|i: int| is_first_occurrence(tokens, tag, i) {
        Some(choose|i: int| is_first_occurrence(tokens, tag, i))
    } else {
        None
    }
}

/// What a lookup of `tag` yields: nothing when the flag is absent, the token
/// right after its first occurrence when there is one, and `MissingValue`
/// when the first occurrence is the last token.
pub open spec fn value_for(tokens: Seq<Seq<char>>, tag: Seq<char>) -> Result<
    Option<Seq<char>>,
    MissingValue,
> {
    match first_occurrence(tokens, tag) {
        None => Ok(None),
        Some(i) => if i + 1 < tokens.len() {
            Ok(Some(tokens[i + 1]))
        } else {
            Err(MissingValue)
        },
    }
}

/// The model of a lookup result: the found value as a sequence of characters.
pub open spec fn lookup_view(result: Result<Option<String>, MissingValue>) -> Result<
    Option<Seq<char>>,
    MissingValue,
> {
    match result {
        Ok(None) => Ok(None),
        Ok(Some(value)) => Ok(Some(value@)),
        Err(e) => Err(e),
    }
}

/// There is at most one first occurrence.
pub proof fn lemma_first_occurrence_unique(
    tokens: Seq<Seq<char>>,
    tag: Seq<char>,
    i: int,
    j: int,
)
    requires
        is_first_occurrence(tokens, tag, i),
        is_first_occurrence(tokens, tag, j),
    ensures
        i == j,
{
}

/// A known first occurrence is the one that `first_occurrence` yields.
pub proof fn lemma_first_occurrence_at(tokens: Seq<Seq<char>>, tag: Seq<char>, i: int)
    requires
        is_first_occurrence(tokens, tag, i),
    ensures
        first_occurrence(tokens, tag) == Some(i),
{
    let k = choose|k: int| is_first_occurrence(tokens, tag, k);
    lemma_first_occurrence_unique(tokens, tag, i, k);
}

/// A list in which no token equals `tag` has no first occurrence.
pub proof fn lemma_first_occurrence_absent(tokens: Seq<Seq<char>>, tag: Seq<char>)
    requires
        forall|j: int| 0 <= j < tokens.len() ==> tokens[j] != tag,
    ensures
        first_occurrence(tokens, tag).is_none(),
{
}

/// Scans `args` for the first token equal to `parameter_tag` and returns a
/// copy of the token that follows it.
pub fn find_value_for(args: &Vec<String>, parameter_tag: &str) -> (result: Result<
    Option<String>,
    MissingValue,
>)
    ensures
        lookup_view(result) == value_for(tokens(args@), parameter_tag@),
{
    let tag = String::from_str(parameter_tag);
    let mut i: usize = 0;
    while i < args.len()
        invariant
            i <= args.len(),
            tag@ == parameter_tag@,
            forall|j: int| 0 <= j < i ==> tokens(args@)[j] != tag@,
        decreases args.len() - i,
    {
        if args[i] == tag {
            proof {
                lemma_first_occurrence_at(tokens(args@), tag@, i as int);
            }
            if i + 1 < args.len() {
                return Ok(Some(args[i + 1].clone()));
            } else {
                return Err(MissingValue);
            }
        }
        i += 1;
    }
    proof {
        lemma_first_occurrence_absent(tokens(args@), tag@);
    }
    Ok(None)
}

} // verus!
