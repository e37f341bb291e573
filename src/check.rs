//! Validation of a proposed rename set: name collisions and files that cannot
//! be renamed.
use vstd::prelude::*;
use crate::item::{RenameItem, RenameItemView};

verus! {

/// What reading a candidate's metadata found out.
#[derive(Clone, Copy, Debug, PartialEq, Eq, Structural)]
pub enum Access {
    /// The metadata was read and the file is not read-only.
    Writable,
    /// The metadata was read and the file is read-only.
    ReadOnly,
    /// The metadata could not be read.
    Unreadable,
}

/// The outcome of validating a proposed rename set.
#[derive(Clone, Debug)]
pub struct CheckResult {
    /// Each proposed name that an earlier candidate already takes, once per
    /// extra occurrence, in candidate order.
    pub conflicting_names: Vec<String>,
    /// The full paths of the candidates that cannot be renamed, in candidate
    /// order.
    pub permission_problems: Vec<String>,
}

/// The proposed names of `items`, in order.
pub open spec fn proposed_names(items: Seq<RenameItemView>) -> Seq<Seq<char>> {
    items.map_values(|it: RenameItemView| it.renamed)
}

/// The names of `names` that occur earlier in the sequence, in order: the
/// first occurrence of a name is never listed, each later one is.
pub open spec fn repeated(names: Seq<Seq<char>>) -> Seq<Seq<char>>
    decreases names.len(),
{
    if names.len() == 0 {
        seq![]
    } else {
        let prev = names.drop_last();
        if prev.contains(names.last()) {
            repeated(prev).push(names.last())
        } else {
            repeated(prev)
        }
    }
}

/// The locations of the items whose access is not `Writable`, in order.
pub open spec fn unrenameable(items: Seq<RenameItemView>, access: Seq<Access>) -> Seq<Seq<char>>
    decreases items.len(),
{
    if items.len() == 0 {
        seq![]
    } else {
        let rest = unrenameable(items.drop_last(), access);
        if access[items.len() - 1] != Access::Writable {
            rest.push(items.last().location)
        } else {
            rest
        }
    }
}

/// The views of a sequence of items.
pub open spec fn item_views(items: Seq<RenameItem>) -> Seq<RenameItemView> {
    items.map_values(|it: RenameItem| it@)
}

/// The views of a sequence of strings.
pub open spec fn string_views(v: Seq<String>) -> Seq<Seq<char>> {
    v.map_values(|s: String| s@)
}

proof fn lemma_distinct_names_not_repeated(names: Seq<Seq<char>>)
    requires
        names.no_duplicates(),
    ensures
        repeated(names) == Seq::<Seq<char>>::empty(),
    decreases names.len(),
{
    if names.len() > 0 {
        let prev = names.drop_last();
        assert(prev.no_duplicates());
        lemma_distinct_names_not_repeated(prev);
        if prev.contains(names.last()) {
            let w = choose|w: int| 0 <= w < prev.len() && prev[w] == names.last();
            assert(names[w] == names[names.len() - 1]);
        }
    }
}

proof fn lemma_writable_not_flagged(items: Seq<RenameItemView>, access: Seq<Access>)
    requires
        access.len() == items.len(),
        forall|i: int| 0 <= i < access.len() ==> access[i] == Access::Writable,
    ensures
        unrenameable(items, access) == Seq::<Seq<char>>::empty(),
    decreases items.len(),
{
    if items.len() > 0 {
        lemma_writable_not_flagged(items.drop_last(), access.drop_last());
        assert(unrenameable(items.drop_last(), access) == unrenameable(items.drop_last(), access.drop_last())) by {
            lemma_unrenameable_prefix(items.drop_last(), access, access.drop_last());
        }
    }
}

proof fn lemma_unrenameable_prefix(items: Seq<RenameItemView>, a: Seq<Access>, b: Seq<Access>)
    requires
        items.len() <= a.len(),
        items.len() <= b.len(),
        forall|i: int| 0 <= i < items.len() ==> a[i] == b[i],
    ensures
        unrenameable(items, a) == unrenameable(items, b),
    decreases items.len(),
{
    if items.len() > 0 {
        lemma_unrenameable_prefix(items.drop_last(), a, b);
    }
}

/// A set in which no two candidates propose the same name and every candidate
/// is writable passes validation with nothing to report.
pub proof fn lemma_clean_set_passes(items: Seq<RenameItemView>, access: Seq<Access>)
    requires
        proposed_names(items).no_duplicates(),
        access.len() == items.len(),
        forall|i: int| 0 <= i < access.len() ==> access[i] == Access::Writable,
    ensures
        repeated(proposed_names(items)) == Seq::<Seq<char>>::empty(),
        unrenameable(items, access) == Seq::<Seq<char>>::empty(),
{
    lemma_distinct_names_not_repeated(proposed_names(items));
    lemma_writable_not_flagged(items, access);
}

/// Finds the proposed names that collide and the candidates that cannot be
/// renamed; `access[i]` is what reading the metadata of `items[i]` found.
pub fn check_renames(items: &[RenameItem], access: &[Access]) -> (r: CheckResult)
    requires
        items@.len() == access@.len(),
    ensures
        string_views(r.conflicting_names@) == repeated(proposed_names(item_views(items@))),
        string_views(r.permission_problems@) == unrenameable(item_views(items@), access@),
{
    let ghost views = item_views(items@);
    let ghost names = proposed_names(views);
    let mut conflicting_names: Vec<String> = Vec::new();
    let mut i: usize = 0;
    while i < items.len()
        invariant
            0 <= i <= items@.len(),
            views == item_views(items@),
            names == proposed_names(views),
            string_views(conflicting_names@) == repeated(names.take(i as int)),
        decreases items@.len() - i,
    {
        let name = items[i].renamed();
        let mut seen = false;
        let mut j: usize = 0;
        while j < i
            invariant
                0 <= j <= i < items@.len(),
                views == item_views(items@),
                names == proposed_names(views),
                seen <==> names.take(j as int).contains(names[i as int]),
                name@ == names[i as int],
            decreases i - j,
        {
            assert(names[j as int] == items@[j as int]@.renamed);
            let same = items[j].renamed().eq(name);
            assert(same == (names[j as int] == names[i as int]));
            if same {
                seen = true;
            }
            proof {
                let t = names.take(j + 1);
                assert(t == names.take(j as int).push(names[j as int]));
                if names.take(j as int).contains(names[i as int]) {
                    let w = choose|w: int| 0 <= w < j && names.take(j as int)[w] == names[i as int];
                    assert(t[w] == names[i as int]);
                }
                if t.contains(names[i as int]) {
                    let w = choose|w: int| 0 <= w <= j && t[w] == names[i as int];
                    if w < j {
                        assert(names.take(j as int)[w] == names[i as int]);
                    }
                }
                if same {
                    assert(t[j as int] == names[i as int]);
                }
            }
            j = j + 1;
        }
        assert(names.take(i + 1).drop_last() == names.take(i as int));
        assert(names.take(i + 1).last() == names[i as int]);
        if seen {
            let ghost before = conflicting_names@;
            conflicting_names.push(name.clone());
            assert(conflicting_names@ == before.push(conflicting_names@.last()));
            assert(string_views(conflicting_names@) == string_views(before).push(name@));
        }
        i = i + 1;
    }
    assert(names.take(items@.len() as int) == names);
    let mut permission_problems: Vec<String> = Vec::new();
    let mut k: usize = 0;
    while k < items.len()
        invariant
            0 <= k <= items@.len(),
            items@.len() == access@.len(),
            views == item_views(items@),
            string_views(permission_problems@) == unrenameable(views.take(k as int), access@),
        decreases items@.len() - k,
    {
        assert(views.take(k + 1).drop_last() == views.take(k as int));
        if access[k] != Access::Writable {
            let ghost before = permission_problems@;
            permission_problems.push(items[k].location().clone());
            assert(permission_problems@ == before.push(permission_problems@.last()));
            assert(string_views(permission_problems@) == string_views(before).push(views[k as int].location));
        }
        k = k + 1;
    }
    assert(views.take(items@.len() as int) == views);
    CheckResult { conflicting_names, permission_problems }
}

} // verus!
