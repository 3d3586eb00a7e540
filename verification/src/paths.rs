use vstd::prelude::*;
use vstd::string::StrSliceExecFns;
use vstd::string::StringExecFns;

verus! {

/// A path is absolute when it begins with the separator.
pub open spec fn spec_is_absolute(p: Seq<char>) -> bool {
    p.len() > 0 && p[0] == '/'
}

/// Whether a path string is absolute.
pub fn is_absolute_path(p: &String) -> (r: bool)
    ensures
        r == spec_is_absolute(p@),
{
    let s = p.as_str();
    if s.unicode_len() == 0 {
        false
    } else {
        s.get_char(0) == '/'
    }
}

/// The entry `item` under the directory `dir`: the item itself under an empty
/// directory, else the two with a separator between them.
pub open spec fn spec_joined(dir: Seq<char>, item: Seq<char>) -> Seq<char> {
    if dir.len() == 0 {
        item
    } else {
        dir + "/"@ + item
    }
}

/// Joins `item` under `dir`: see [`spec_joined`].
pub fn join_path(dir: &String, item: &String) -> (r: String)
    ensures
        r@ == spec_joined(dir@, item@),
{
    if dir.as_str().is_empty() {
        item.clone()
    } else {
        let mut joined = dir.clone();
        joined.append("/");
        joined.append(item.as_str());
        joined
    }
}

/// Each item joined under the directory, in order.
pub fn joined_paths(dir: &String, items: &Vec<String>) -> (r: Vec<String>)
    ensures
        r@.len() == items@.len(),
        forall|j: int|
            0 <= j < items@.len() ==> (#[trigger] r@[j])@ == spec_joined(dir@, items@[j]@),
{
    let mut joined: Vec<String> = Vec::new();
    let n = items.len();
    for i in 0..n
        invariant
            n == items.len(),
            joined@.len() == i,
            forall|j: int|
                0 <= j < i ==> (#[trigger] joined@[j])@ == spec_joined(dir@, items@[j]@),
    {
        joined.push(join_path(dir, &items[i]));
    }
    joined
}

} // verus!
