//! The version probe: what the build metadata says of a library's version.

use crate::verdict::Outcome;
use vstd::prelude::*;

verus! {

/// The build metadata lists no package of the name asked for.
#[derive(Clone, Copy, Debug, PartialEq, Eq, Structural)]
pub struct MetadataNotFound;

/// The build metadata as (package name, resolved version) pairs.
pub open spec fn deps_view(deps: Seq<(String, String)>) -> Seq<(Seq<char>, Seq<char>)> {
    deps.map_values(|e: (String, String)| (e.0@, e.1@))
}

/// The version of the first entry named `name`, if there is one.
pub open spec fn lookup(deps: Seq<(Seq<char>, Seq<char>)>, name: Seq<char>) -> Option<Seq<char>>
    decreases deps.len(),
{
    if deps.len() == 0 {
        None
    } else if deps[0].0 == name {
        Some(deps[0].1)
    } else {
        lookup(deps.drop_first(), name)
    }
}

/// Text of the cell of a library whose version the metadata does not hold.
pub open spec fn unknown_version() -> Seq<char> {
    "unknown version"@
}

/// What the version probe reports for a lookup's result.
pub open spec fn version_outcome_spec(found: Option<Seq<char>>) -> Option<Seq<char>> {
    match found {
        Some(v) => Some(v),
        None => Some(unknown_version()),
    }
}

/// Looks up the resolved version of the package `name` in the build metadata.
pub fn dependency_version(deps: &Vec<(String, String)>, name: &str) -> (r: Result<
    String,
    MetadataNotFound,
>)
    ensures
        lookup(deps_view(deps@), name@) is None ==> r == Err::<String, MetadataNotFound>(
            MetadataNotFound,
        ),
        lookup(deps_view(deps@), name@) is Some ==> r is Ok && r->Ok_0@ == lookup(
            deps_view(deps@),
            name@,
        )->Some_0,
{
    let key = String::from_str(name);
    let n = deps.len();
    let mut i: usize = 0;
    assert(deps_view(deps@).skip(0) =~= deps_view(deps@));
    while i < n
        invariant
            n == deps@.len(),
            i <= n,
            key@ == name@,
            lookup(deps_view(deps@), name@) == lookup(deps_view(deps@).skip(i as int), name@),
        decreases n - i,
    {
        let ghost rest = deps_view(deps@).skip(i as int);
        assert(rest.drop_first() =~= deps_view(deps@).skip(i + 1));
        if deps[i].0 == key {
            return Ok(deps[i].1.clone());
        }
        i += 1;
    }
    Err(MetadataNotFound)
}

/// The outcome of the version probe: the resolved version, or the
/// degraded text where the metadata does not hold it.
pub fn version_outcome(found: Result<String, MetadataNotFound>) -> (r: Outcome)
    ensures
        found is Ok ==> r == Outcome::Completed(Some(found->Ok_0)),
        found is Err ==> r is Completed && r->Completed_0 is Some
            && r->Completed_0->Some_0@ == unknown_version(),
{
    match found {
        Ok(v) => Outcome::Completed(Some(v)),
        Err(_) => Outcome::Completed(Some(String::from_str("unknown version"))),
    }
}

/// The whole version probe for the package `name`.
pub fn version_probe(deps: &Vec<(String, String)>, name: &str) -> (r: Outcome)
    ensures
        r is Completed && r->Completed_0 is Some,
        r->Completed_0->Some_0@ == version_outcome_spec(lookup(deps_view(deps@), name@))->Some_0,
{
    version_outcome(dependency_version(deps, name))
}

} // verus!
