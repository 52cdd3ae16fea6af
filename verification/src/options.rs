//! The options that a kernel's entry point accepts.

use vstd::prelude::*;
use crate::text::same_text;

verus! {

/// Whether `name` is an option of the entry point: `launch` or
/// `launch_unchecked`.
pub open spec fn is_option(name: Seq<char>) -> bool {
    name == "launch"@ || name == "launch_unchecked"@
}

/// Whether `name` is an option of the entry point.
pub fn accepts_option(name: &str) -> (accepted: bool)
    ensures
        accepted == is_option(name@),
{
    same_text(name, "launch") || same_text(name, "launch_unchecked")
}

/// The place of the first name that is no option of the entry point, or
/// `None` where every name is one.
pub fn first_refused_option(names: &Vec<String>) -> (refused: Option<usize>)
    ensures
        match refused {
            None => forall|i: int| 0 <= i < names.len() ==> is_option(#[trigger] names[i]@),
            Some(at) => {
                &&& at < names.len()
                &&& !is_option(names[at as int]@)
                &&& forall|i: int| 0 <= i < at ==> is_option(#[trigger] names[i]@)
            },
        },
{
    let mut i: usize = 0;
    while i < names.len()
        invariant
            i <= names.len(),
            forall|j: int| 0 <= j < i ==> is_option(#[trigger] names[j]@),
        decreases names.len() - i,
    {
        if !accepts_option(names[i].as_str()) {
            return Some(i);
        }
        i = i + 1;
    }
    None
}

} // verus!
