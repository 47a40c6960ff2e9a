//! Helpers on texts and lists of texts.

use vstd::prelude::*;
use vstd::string::StringExecFns;

verus! {

/// The character sequences of a list of strings, in order.
pub open spec fn texts(list: Seq<String>) -> Seq<Seq<char>> {
    list.map_values(|item: String| item@)
}

/// Pushing a string pushes its characters onto the list's texts.
pub proof fn lemma_texts_push(list: Seq<String>, item: String)
    ensures
        texts(list.push(item)) == texts(list).push(item@),
{
    assert(texts(list.push(item)) =~= texts(list).push(item@));
}

/// A copy of a list of strings.
pub fn clone_texts(list: &Vec<String>) -> (copy: Vec<String>)
    ensures
        texts(copy@) == texts(list@),
{
    let mut copy: Vec<String> = Vec::new();
    let mut i: usize = 0;
    while i < list.len()
        invariant
            i <= list.len(),
            copy@.len() == i,
            forall|k: int| 0 <= k < i ==> copy@[k]@ == list@[k]@,
        decreases list.len() - i,
    {
        copy.push(list[i].clone());
        i += 1;
    }
    assert(texts(copy@) =~= texts(list@));
    copy
}

/// Whether a list of strings holds the given text.
pub fn contains_text(list: &Vec<String>, item: &String) -> (found: bool)
    ensures
        found == texts(list@).contains(item@),
{
    let mut i: usize = 0;
    while i < list.len()
        invariant
            i <= list.len(),
            forall|k: int| 0 <= k < i ==> list@[k]@ != item@,
        decreases list.len() - i,
    {
        if list[i] == *item {
            assert(texts(list@)[i as int] == item@);
            return true;
        }
        i += 1;
    }
    assert forall|k: int| 0 <= k < texts(list@).len() implies texts(list@)[k] != item@ by {
        assert(texts(list@)[k] == list@[k]@);
    }
    false
}

/// The text with its leading `from` replaced by `to`, or the text itself
/// where it does not start with `from`.
pub open spec fn rebased(text: Seq<char>, from: Seq<char>, to: Seq<char>) -> Seq<char> {
    if from.is_prefix_of(text) {
        to + text.skip(from.len() as int)
    } else {
        text
    }
}

/// Calls `str::strip_prefix` with a string pattern: where the text starts
/// with the prefix, the rest of the text; otherwise `None`.
#[verifier::external_body]
fn strip_prefix<'a>(text: &'a str, prefix: &str) -> (rest: Option<&'a str>)
    ensures
        match rest {
            Some(tail) => text@ == prefix@ + tail@,
            None => !prefix@.is_prefix_of(text@),
        },
{
    text.strip_prefix(prefix)
}

/// Substitutes the prefix `to` for the prefix `from` of a path.
pub fn rebase(text: &String, from: &String, to: &String) -> (moved: String)
    ensures
        moved@ == rebased(text@, from@, to@),
{
    match strip_prefix(text.as_str(), from.as_str()) {
        Some(tail) => {
            proof {
                assert(from@.is_prefix_of(text@)) by {
                    assert(text@.subrange(0, from@.len() as int) =~= from@);
                }
                assert(text@.skip(from@.len() as int) =~= tail@);
            }
            to.clone().concat(tail)
        },
        None => text.clone(),
    }
}

} // verus!
