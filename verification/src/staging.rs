use vstd::prelude::*;
use vstd::string::StringExecFns;

use crate::error::BuildError;
use crate::paths::is_absolute_path;
use crate::paths::spec_is_absolute;

verus! {

broadcast use vstd::seq_lib::group_filter_ensures;

/// The copy policy of a staging run: nothing configured, every top-level
/// entry of the project directory but the dependency cache, or an explicit
/// list of relative paths.
pub enum CopyItems {
    Nothing,
    All,
    Explicit(Vec<String>),
}

/// The reserved dependency-cache entry name, excluded from a copy-all staging
/// because the install phase reconstructs it.
pub open spec fn spec_excluded(name: Seq<char>) -> bool {
    name == "node_modules"@
}

/// The items a copy-all staging takes from a directory listing: every entry
/// except the dependency cache, in listing order.
pub open spec fn spec_copy_all_items(contents: Seq<Seq<char>>) -> Seq<Seq<char>> {
    contents.filter(|n: Seq<char>| !spec_excluded(n))
}

/// The resolved item list of a staging run, before validation.
pub open spec fn spec_resolved_items(policy: CopyItems, contents: Seq<Seq<char>>) -> Seq<
    Seq<char>,
> {
    match policy {
        CopyItems::Nothing => Seq::empty(),
        CopyItems::All => spec_copy_all_items(contents),
        CopyItems::Explicit(items) => items.deep_view(),
    }
}

/// Whether some resolved item is an absolute path.
pub open spec fn spec_has_absolute(items: Seq<Seq<char>>) -> bool {
    exists|i: int| 0 <= i < items.len() && spec_is_absolute(items[i])
}

/// Resolves and validates the list of items a staging run will sync, without
/// touching the filesystem. `contents` is the listing of the project
/// directory's immediate entries, read only under the copy-all policy.
/// Fails exactly when no policy was configured, or when a resolved item is an
/// absolute path.
pub fn stage_plan(policy: &CopyItems, contents: &Vec<String>) -> (r: Result<
    Vec<String>,
    BuildError,
>)
    ensures
        match r {
            Ok(items) => !(policy is Nothing) && items.deep_view() == spec_resolved_items(
                *policy,
                contents.deep_view(),
            ) && !spec_has_absolute(items.deep_view()),
            Err(e) => (policy is Nothing && e == BuildError::NoCopyPolicy) || (!(policy is Nothing)
                && spec_has_absolute(spec_resolved_items(*policy, contents.deep_view())) && e
                == BuildError::AbsoluteCopyItem),
        },
{
    let items: Vec<String> = match policy {
        CopyItems::Nothing => {
            return Err(BuildError::NoCopyPolicy);
        },
        CopyItems::All => copy_all_items(contents),
        CopyItems::Explicit(list) => list.clone(),
    };
    let ghost resolved = spec_resolved_items(*policy, contents.deep_view());
    assert(items.deep_view() =~= resolved);
    let n = items.len();
    for i in 0..n
        invariant
            n == items.len(),
            !(policy is Nothing),
            resolved == spec_resolved_items(*policy, contents.deep_view()),
            items.deep_view() == resolved,
            forall|j: int| 0 <= j < i ==> !spec_is_absolute(#[trigger] items.deep_view()[j]),
    {
        if is_absolute_path(&items[i]) {
            proof {
                let k = i as int;
                assert(0 <= k < resolved.len() && spec_is_absolute(resolved[k]));
                assert(spec_has_absolute(resolved));
            }
            return Err(BuildError::AbsoluteCopyItem);
        }
    }
    Ok(items)
}

/// Keeps every listed entry except the dependency cache, in order.
fn copy_all_items(contents: &Vec<String>) -> (r: Vec<String>)
    ensures
        r.deep_view() == spec_copy_all_items(contents.deep_view()),
{
    let excluded: String = String::from_str("node_modules");
    let mut kept: Vec<String> = Vec::new();
    let ghost all = contents.deep_view();
    let n = contents.len();
    for i in 0..n
        invariant
            n == contents.len(),
            all == contents.deep_view(),
            excluded@ == "node_modules"@,
            kept.deep_view() == spec_copy_all_items(all.take(i as int)),
    {
        let ghost prefix = all.take(i as int);
        let ghost kept_before = kept.deep_view();
        let entry = &contents[i];
        assert(entry@ == all[i as int]);
        let is_cache: bool = *entry == excluded;
        if !is_cache {
            kept.push(entry.clone());
            assert(kept.deep_view() =~= kept_before.push(entry@));
        }
        proof {
            reveal(Seq::filter);
            assert(all.take(i + 1).drop_last() =~= prefix);
            assert(all.take(i + 1).last() == entry@);
            if !spec_excluded(entry@) {
                assert(spec_copy_all_items(all.take(i + 1)) == spec_copy_all_items(prefix).push(
                    entry@,
                ));
            } else {
                assert(spec_copy_all_items(all.take(i + 1)) == spec_copy_all_items(prefix));
            }
        }
    }
    proof {
        assert(all.take(n as int) =~= all);
    }
    kept
}

/// The copy-all exclusion rule: the items a copy-all staging resolves are
/// exactly the directory entries other than the dependency cache, so the
/// cache entry is never staged.
pub proof fn lemma_copy_all_excludes_cache(contents: Seq<Seq<char>>)
    ensures
        forall|n: Seq<char>|
            #[trigger] spec_copy_all_items(contents).contains(n) <==> (contents.contains(n)
                && !spec_excluded(n)),
{
    let pred = |n: Seq<char>| !spec_excluded(n);
    assert forall|n: Seq<char>| #[trigger]
        spec_copy_all_items(contents).contains(n) implies (contents.contains(n) && !spec_excluded(
        n,
    )) by {
        lemma_filter_is_subset(contents, pred, n);
        let i = choose|i: int|
            0 <= i < spec_copy_all_items(contents).len() && spec_copy_all_items(contents)[i] == n;
        assert(pred(spec_copy_all_items(contents)[i]));
    }
    assert forall|n: Seq<char>| (contents.contains(n) && !spec_excluded(
        n,
    )) implies #[trigger] spec_copy_all_items(contents).contains(n) by {
        let i = choose|i: int| 0 <= i < contents.len() && contents[i] == n;
        assert(contents.filter(pred).contains(contents[i]));
    }
}

/// An element of a filtered sequence is an element of the sequence.
proof fn lemma_filter_is_subset<A>(s: Seq<A>, pred: spec_fn(A) -> bool, x: A)
    requires
        s.filter(pred).contains(x),
    ensures
        s.contains(x),
    decreases s.len(),
{
    reveal(Seq::filter);
    if s.len() > 0 {
        if s.filter(pred) == s.drop_last().filter(pred) || !(s.last() == x) {
            if s.drop_last().filter(pred).contains(x) {
                lemma_filter_is_subset(s.drop_last(), pred, x);
                let i = choose|i: int| 0 <= i < s.drop_last().len() && s.drop_last()[i] == x;
                assert(s[i] == x);
            } else {
                let i = choose|i: int|
                    0 <= i < s.filter(pred).len() && s.filter(pred)[i] == x;
                assert(s.filter(pred)[i] == x);
            }
        } else {
            assert(s[s.len() - 1] == x);
        }
    }
}

/// A directory listing never yields an absolute copy item: every listed name
/// is a base name without a separator, and an absolute path begins with one.
pub proof fn lemma_listed_names_not_absolute(contents: Seq<Seq<char>>)
    requires
        forall|j: int| 0 <= j < contents.len() ==> !(#[trigger] contents[j]).contains('/'),
    ensures
        !spec_has_absolute(spec_copy_all_items(contents)),
{
    let filtered = spec_copy_all_items(contents);
    assert forall|i: int| 0 <= i < filtered.len() implies !spec_is_absolute(
        #[trigger] filtered[i],
    ) by {
        assert(filtered.contains(filtered[i]));
        lemma_filter_is_subset(contents, |n: Seq<char>| !spec_excluded(n), filtered[i]);
        let k = choose|k: int| 0 <= k < contents.len() && contents[k] == filtered[i];
        if spec_is_absolute(filtered[i]) {
            assert(0 <= 0 < filtered[i].len() && filtered[i][0] == '/');
            assert(filtered[i].contains('/'));
        }
    }
}

/// Relies on `fs_extra::dir::ls`: lists the immediate entries of `dir`,
/// handing back each entry's base file name, which contains no separator.
#[verifier::external_body]
pub(crate) fn list_dir_entries(dir: &String) -> (r: Result<Vec<String>, ()>)
    ensures
        r matches Result::Ok(names) ==> forall|j: int|
            0 <= j < names@.len() ==> !(#[trigger] names@[j])@.contains('/'),
{
    let mut attrs = std::collections::HashSet::new();
    attrs.insert(fs_extra::dir::DirEntryAttr::FullName);
    let listing = match fs_extra::dir::ls(dir.as_str(), &attrs) {
        Ok(l) => l,
        Err(_) => return Err(()),
    };
    listing.items.into_iter().map(|mut item| {
        match item.remove(&fs_extra::dir::DirEntryAttr::FullName) {
            Some(fs_extra::dir::DirEntryValue::String(name)) => Ok(name),
            _ => Err(()),
        }
    }).collect()
}

/// Relies on `fs_extra::remove_items`: removes each listed path, a directory
/// recursively, tolerating paths that do not exist.
#[verifier::external_body]
pub(crate) fn remove_paths(paths: &Vec<String>) -> (r: Result<(), ()>)
{
    fs_extra::remove_items(paths.as_slice()).map_err(|_| ())
}

/// Relies on `fs_extra::copy_items`: recursively copies each listed path into
/// the directory `to`, keeping directory structure and file contents.
#[verifier::external_body]
pub(crate) fn copy_paths_into(from: &Vec<String>, to: &String) -> (r: Result<(), ()>)
{
    match fs_extra::copy_items(from.as_slice(), to.as_str(), &fs_extra::dir::CopyOptions::new()) {
        Ok(_) => Ok(()),
        Err(_) => Err(()),
    }
}

} // verus!
