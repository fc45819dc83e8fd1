//! Names as they are given on a command line and found in a directory.

use vstd::prelude::*;
use vstd::string::StringExecFns;

verus! {

/// The name that an optional argument gives: its text, or the empty name if
/// the argument is absent.
pub open spec fn given(name: Option<&String>) -> Seq<char> {
    match name {
        Some(name) => name@,
        None => Seq::empty(),
    }
}

/// Returns the name that an optional argument gives.
pub fn name_or_empty(name: Option<&String>) -> (text: String)
    ensures
        text@ == given(name),
{
    match name {
        Some(name) => name.clone(),
        None => String::new(),
    }
}

/// Whether one of `names` is `name`.
pub fn is_among(names: &Vec<String>, name: &str) -> (found: bool)
    ensures
        found == names.deep_view().contains(name@),
{
    let wanted = String::from_str(name);
    let mut i: usize = 0;
    while i < names.len()
        invariant
            i <= names.len(),
            wanted@ == name@,
            forall|k: int| 0 <= k < i ==> names.deep_view()[k] != name@,
        decreases names.len() - i,
    {
        if names[i] == wanted {
            assert(names.deep_view()[i as int] == name@);
            return true;
        }
        i += 1;
    }
    false
}

/// Whether `text` reads exactly as `word`.
pub fn reads(text: &str, word: &str) -> (same: bool)
    ensures
        same == (text@ == word@),
{
    String::from_str(text) == String::from_str(word)
}

} // verus!
