//! The index snapshot, as the pipeline reads it: every package with its published
//! versions and its highest version.
use vstd::prelude::*;
use crate::Error;

verus! {

/// One package of the index.
pub struct Package {
    pub name: String,
    /// The published versions, in the order the index gives them.
    pub versions: Vec<String>,
    /// The version the index designates as the highest.
    pub highest: String,
}

/// The views of a list of strings.
pub open spec fn strings_view(v: Seq<String>) -> Seq<Seq<char>> {
    v.map_values(|s: String| s@)
}

impl Package {
    /// The views of the published versions.
    pub open spec fn versions_view(&self) -> Seq<Seq<char>> {
        strings_view(self.versions@)
    }

    /// A package of the given name, versions and highest version.
    pub fn new(name: String, versions: Vec<String>, highest: String) -> (p: Package)
        ensures
            p.name == name,
            p.versions == versions,
            p.highest == highest,
    {
        Package { name, versions, highest }
    }
}

/// Refuses an index that lists no package: an empty index is taken for one that could
/// not be read, never for a run with nothing to do.
pub fn check_index(index: &Vec<Package>) -> (r: Result<(), Error>)
    ensures
        r is Ok <==> index@.len() > 0,
        r is Err ==> r == Err::<(), Error>(Error::EmptyIndex),
{
    if index.len() == 0 {
        Err(Error::EmptyIndex)
    } else {
        Ok(())
    }
}

} // verus!
