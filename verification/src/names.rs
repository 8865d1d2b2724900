//! Finding a name in an ordered list of names.

use vstd::prelude::*;
use vstd::string::StringExecFns;

verus! {

/// The index of the first occurrence of `name` in `names`, if there is one.
pub open spec fn position(names: Seq<Seq<char>>, name: Seq<char>) -> Option<int>
    decreases names.len(),
{
    if names.len() == 0 {
        None
    } else if names.last() == name && position(names.drop_last(), name) is None {
        Some(names.len() - 1)
    } else {
        position(names.drop_last(), name)
    }
}

/// `position` finds an index that holds the name, with no earlier occurrence,
/// and finds nothing only where the name does not occur.
pub proof fn lemma_position(names: Seq<Seq<char>>, name: Seq<char>)
    ensures
        match position(names, name) {
            Some(i) => 0 <= i < names.len() && names[i] == name && forall|j: int|
                0 <= j < i ==> names[j] != name,
            None => forall|j: int| 0 <= j < names.len() ==> names[j] != name,
        },
    decreases names.len(),
{
    if names.len() > 0 {
        let front = names.drop_last();
        lemma_position(front, name);
        assert forall|j: int| 0 <= j < front.len() implies front[j] == names[j] by {}
        match position(front, name) {
            Some(i) => {
                assert(front[i] == names[i]);
            },
            None => {
                assert forall|j: int| 0 <= j < front.len() implies names[j] != name by {
                    assert(front[j] != name);
                }
            },
        }
    }
}

/// An index that holds the name, with no earlier occurrence, is what `position` finds.
pub proof fn lemma_position_first(names: Seq<Seq<char>>, name: Seq<char>, i: int)
    requires
        0 <= i < names.len(),
        names[i] == name,
        forall|j: int| 0 <= j < i ==> names[j] != name,
    ensures
        position(names, name) == Some(i),
{
    lemma_position(names, name);
}

/// A name that occurs nowhere is not found.
pub proof fn lemma_position_absent(names: Seq<Seq<char>>, name: Seq<char>)
    requires
        forall|j: int| 0 <= j < names.len() ==> names[j] != name,
    ensures
        position(names, name) is None,
{
    lemma_position(names, name);
}

/// Appending a name leaves what was found where it was, and makes a new name
/// found at the end.
pub proof fn lemma_position_push(names: Seq<Seq<char>>, added: Seq<char>, name: Seq<char>)
    ensures
        position(names.push(added), name) == match position(names, name) {
            Some(i) => Some(i),
            None => if added == name {
                Some(names.len() as int)
            } else {
                None
            },
        },
{
    assert(names.push(added).drop_last() =~= names);
}

/// The names of a list of strings.
pub open spec fn views(names: Seq<String>) -> Seq<Seq<char>> {
    names.map_values(|s: String| s@)
}

/// Looks `name` up in `names`.
pub fn find_name(names: &Vec<String>, name: &str) -> (r: Option<usize>)
    ensures
        match r {
            Some(i) => i < names.len() && position(views(names@), name@) == Some(i as int),
            None => position(views(names@), name@) is None,
        },
{
    let wanted = String::from_str(name);
    let mut i: usize = 0;
    while i < names.len()
        invariant
            0 <= i <= names.len(),
            wanted@ == name@,
            forall|j: int| 0 <= j < i ==> views(names@)[j] != name@,
        decreases names.len() - i,
    {
        if names[i] == wanted {
            proof {
                lemma_position_first(views(names@), name@, i as int);
            }
            return Some(i);
        }
        i = i + 1;
    }
    proof {
        lemma_position_absent(views(names@), name@);
    }
    None
}

/// A copy of a list of names.
pub fn clone_names(names: &Vec<String>) -> (r: Vec<String>)
    ensures
        views(r@) == views(names@),
{
    let mut r: Vec<String> = Vec::new();
    let mut i: usize = 0;
    while i < names.len()
        invariant
            0 <= i <= names.len(),
            r.len() == i,
            forall|j: int| 0 <= j < i ==> r@[j]@ == names@[j]@,
        decreases names.len() - i,
    {
        r.push(names[i].clone());
        i = i + 1;
    }
    assert(views(r@) =~= views(names@));
    r
}

} // verus!
