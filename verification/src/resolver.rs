//! The candidate-registry searches: the exact pass and the suffix pass over
//! the flat associated-files list, and the same two passes over the nested
//! embedded-files name tree, in depth-first order with the first hit winning.
use vstd::prelude::*;
use crate::matcher::{spec_matching_name, spec_matching_suffix, FileMatcher};
use crate::model::{ErrorKind, FileDescriptor, NameTree};

verus! {

/// The first descriptor of the list that the matcher accepts, with the
/// display name under which it matched; scanning is in list order and stops
/// at the first hit.
pub open spec fn spec_list_exact(names: Seq<Seq<char>>, list: Seq<FileDescriptor>) -> Option<
    (Seq<char>, FileDescriptor),
>
    decreases list.len(),
{
    if list.len() == 0 {
        None
    } else {
        match spec_matching_name(names, list[0]) {
            Some(n) => Some((n, list[0])),
            None => spec_list_exact(names, list.drop_first()),
        }
    }
}

/// The first descriptor of the list whose display name ends with `suffix`.
pub open spec fn spec_list_suffix(list: Seq<FileDescriptor>, suffix: Seq<char>) -> Option<
    (Seq<char>, FileDescriptor),
>
    decreases list.len(),
{
    if list.len() == 0 {
        None
    } else {
        match spec_matching_suffix(list[0], suffix) {
            Some(n) => Some((n, list[0])),
            None => spec_list_suffix(list.drop_first(), suffix),
        }
    }
}

/// The exact pass over the associated-files list: the first entry accepted
/// by the matcher wins; no ranking beyond list order.
pub fn list_exact_pass<'a>(m: &FileMatcher, list: &'a Vec<FileDescriptor>) -> (r: Option<
    (&'a String, &'a FileDescriptor),
>)
    ensures
        match r {
            Some((s, d)) => spec_list_exact(m.spec_names(), list@) == Some((s@, *d)),
            None => spec_list_exact(m.spec_names(), list@) is None,
        },
{
    let n = list.len();
    proof {
        assert(list@.subrange(0, n as int) =~= list@);
    }
    let mut i: usize = 0;
    while i < n
        invariant
            0 <= i <= n,
            n == list@.len(),
            spec_list_exact(m.spec_names(), list@) == spec_list_exact(
                m.spec_names(),
                list@.subrange(i as int, n as int),
            ),
        decreases n - i,
    {
        let d = &list[i];
        proof {
            assert(list@.subrange(i as int, n as int)[0] == list@[i as int]);
        }
        match m.matching_name(d) {
            Some(s) => {
                return Some((s, d));
            },
            None => {
                proof {
                    assert(list@.subrange(i as int, n as int).drop_first() =~= list@.subrange(
                        i as int + 1,
                        n as int,
                    ));
                }
            },
        }
        i += 1;
    }
    proof {
        assert(list@.subrange(n as int, n as int).len() == 0);
    }
    None
}

/// The suffix pass over the associated-files list: the first entry whose
/// display name ends with `suffix` wins.
pub fn list_suffix_pass<'a>(list: &'a Vec<FileDescriptor>, suffix: &str) -> (r: Option<
    (&'a String, &'a FileDescriptor),
>)
    ensures
        match r {
            Some((s, d)) => spec_list_suffix(list@, suffix@) == Some((s@, *d)),
            None => spec_list_suffix(list@, suffix@) is None,
        },
{
    let n = list.len();
    proof {
        assert(list@.subrange(0, n as int) =~= list@);
    }
    let mut i: usize = 0;
    while i < n
        invariant
            0 <= i <= n,
            n == list@.len(),
            spec_list_suffix(list@, suffix@) == spec_list_suffix(
                list@.subrange(i as int, n as int),
                suffix@,
            ),
        decreases n - i,
    {
        let d = &list[i];
        proof {
            assert(list@.subrange(i as int, n as int)[0] == list@[i as int]);
        }
        match FileMatcher::matching_suffix(d, suffix) {
            Some(s) => {
                return Some((s, d));
            },
            None => {
                proof {
                    assert(list@.subrange(i as int, n as int).drop_first() =~= list@.subrange(
                        i as int + 1,
                        n as int,
                    ));
                }
            },
        }
        i += 1;
    }
    proof {
        assert(list@.subrange(n as int, n as int).len() == 0);
    }
    None
}

/// The exact search over a subtree, in depth-first order: the first accepted
/// leaf entry wins; a malformed subtree met before any hit is an error.
pub open spec fn spec_tree_exact(names: Seq<Seq<char>>, t: NameTree) -> Result<
    Option<(Seq<char>, FileDescriptor)>,
    ErrorKind,
>
    decreases t, 0int,
{
    match t {
        NameTree::Malformed => Err(ErrorKind::RegistryMalformed),
        NameTree::Leaf(entries) => Ok(spec_list_exact(names, entries@)),
        NameTree::Interior(kids) => spec_forest_exact(names, kids@, 0),
    }
}

/// The exact search over the subtrees `kids[i..]`, left to right.
pub open spec fn spec_forest_exact(names: Seq<Seq<char>>, kids: Seq<NameTree>, i: int) -> Result<
    Option<(Seq<char>, FileDescriptor)>,
    ErrorKind,
>
    decreases kids, kids.len() - i,
{
    if i < 0 || i >= kids.len() {
        Ok(None)
    } else {
        match spec_tree_exact(names, kids[i]) {
            Err(e) => Err(e),
            Ok(Some(x)) => Ok(Some(x)),
            Ok(None) => spec_forest_exact(names, kids, i + 1),
        }
    }
}

/// The suffix search over a subtree, in depth-first order.
pub open spec fn spec_tree_suffix(t: NameTree, suffix: Seq<char>) -> Result<
    Option<(Seq<char>, FileDescriptor)>,
    ErrorKind,
>
    decreases t, 0int,
{
    match t {
        NameTree::Malformed => Err(ErrorKind::RegistryMalformed),
        NameTree::Leaf(entries) => Ok(spec_list_suffix(entries@, suffix)),
        NameTree::Interior(kids) => spec_forest_suffix(kids@, 0, suffix),
    }
}

/// The suffix search over the subtrees `kids[i..]`, left to right.
pub open spec fn spec_forest_suffix(kids: Seq<NameTree>, i: int, suffix: Seq<char>) -> Result<
    Option<(Seq<char>, FileDescriptor)>,
    ErrorKind,
>
    decreases kids, kids.len() - i,
{
    if i < 0 || i >= kids.len() {
        Ok(None)
    } else {
        match spec_tree_suffix(kids[i], suffix) {
            Err(e) => Err(e),
            Ok(Some(x)) => Ok(Some(x)),
            Ok(None) => spec_forest_suffix(kids, i + 1, suffix),
        }
    }
}

/// The exact pass over the embedded-files tree: every leaf entry is a
/// candidate, visited depth-first, and the first accepted one wins.  Work
/// after the first hit is discarded by returning early.
#[verifier::loop_isolation(false)]
pub fn tree_exact_pass<'a>(m: &FileMatcher, t: &'a NameTree) -> (r: Result<
    Option<(&'a String, &'a FileDescriptor)>,
    ErrorKind,
>)
    ensures
        match r {
            Ok(Some((s, d))) => spec_tree_exact(m.spec_names(), *t) == Ok::<_, ErrorKind>(
                Some((s@, *d)),
            ),
            Ok(None) => spec_tree_exact(m.spec_names(), *t) == Ok::<
                Option<(Seq<char>, FileDescriptor)>,
                ErrorKind,
            >(None),
            Err(e) => spec_tree_exact(m.spec_names(), *t) == Err::<
                Option<(Seq<char>, FileDescriptor)>,
                _,
            >(e),
        },
    decreases *t,
{
    match t {
        NameTree::Malformed => Err(ErrorKind::RegistryMalformed),
        NameTree::Leaf(entries) => Ok(list_exact_pass(m, entries)),
        NameTree::Interior(kids) => {
            let n = kids.len();
            let mut i: usize = 0;
            while i < n
                invariant
                    0 <= i <= n,
                    n == kids@.len(),
                    spec_forest_exact(m.spec_names(), kids@, 0) == spec_forest_exact(
                        m.spec_names(),
                        kids@,
                        i as int,
                    ),
                decreases n - i,
            {
                proof {
                    assert(decreases_to!(*t => *kids));
                    assert(decreases_to!(*kids => kids@));
                    assert(decreases_to!(kids@ => kids@[i as int]));
                }
                match tree_exact_pass(m, &kids[i]) {
                    Err(e) => {
                        proof {
                            assert(spec_forest_exact(m.spec_names(), kids@, i as int) == Err::<
                                Option<(Seq<char>, FileDescriptor)>,
                                _,
                            >(e));
                        }
                        return Err(e);
                    },
                    Ok(Some(x)) => {
                        proof {
                            assert(spec_forest_exact(m.spec_names(), kids@, i as int) == Ok::<
                                _,
                                ErrorKind,
                            >(Some((x.0@, *x.1))));
                        }
                        return Ok(Some(x));
                    },
                    Ok(None) => {},
                }
                i += 1;
            }
            Ok(None)
        },
    }
}

/// The suffix pass over the embedded-files tree, mirroring the exact pass.
#[verifier::loop_isolation(false)]
pub fn tree_suffix_pass<'a>(t: &'a NameTree, suffix: &str) -> (r: Result<
    Option<(&'a String, &'a FileDescriptor)>,
    ErrorKind,
>)
    ensures
        match r {
            Ok(Some((s, d))) => spec_tree_suffix(*t, suffix@) == Ok::<_, ErrorKind>(
                Some((s@, *d)),
            ),
            Ok(None) => spec_tree_suffix(*t, suffix@) == Ok::<Option<(Seq<char>, FileDescriptor)>, ErrorKind>(None),
            Err(e) => spec_tree_suffix(*t, suffix@) == Err::<Option<(Seq<char>, FileDescriptor)>, _>(e),
        },
    decreases *t,
{
    match t {
        NameTree::Malformed => Err(ErrorKind::RegistryMalformed),
        NameTree::Leaf(entries) => Ok(list_suffix_pass(entries, suffix)),
        NameTree::Interior(kids) => {
            let n = kids.len();
            let mut i: usize = 0;
            while i < n
                invariant
                    0 <= i <= n,
                    n == kids@.len(),
                    spec_forest_suffix(kids@, 0, suffix@) == spec_forest_suffix(
                        kids@,
                        i as int,
                        suffix@,
                    ),
                decreases n - i,
            {
                proof {
                    assert(decreases_to!(*t => *kids));
                    assert(decreases_to!(*kids => kids@));
                    assert(decreases_to!(kids@ => kids@[i as int]));
                }
                match tree_suffix_pass(&kids[i], suffix) {
                    Err(e) => {
                        proof {
                            assert(spec_forest_suffix(kids@, i as int, suffix@) == Err::<
                                Option<(Seq<char>, FileDescriptor)>,
                                _,
                            >(e));
                        }
                        return Err(e);
                    },
                    Ok(Some(x)) => {
                        proof {
                            assert(spec_forest_suffix(kids@, i as int, suffix@) == Ok::<
                                _,
                                ErrorKind,
                            >(Some((x.0@, *x.1))));
                        }
                        return Ok(Some(x));
                    },
                    Ok(None) => {},
                }
                i += 1;
            }
            Ok(None)
        },
    }
}

} // verus!
