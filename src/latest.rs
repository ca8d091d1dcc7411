//! The latest-link builder's plan: one link per package, from `latest/{id}` to
//! `sources/{id}`, where `id` names the package's highest version.
use vstd::prelude::*;
use crate::index::Package;
use crate::naming::{identifier, identifier_spec};

verus! {

/// A link to create, both paths relative to the working directory.
pub struct LatestLink {
    /// `latest/{name}-{version}`.
    pub link: String,
    /// `sources/{name}-{version}`.
    pub target: String,
}

/// The identifier of a package's highest version.
pub open spec fn latest_id(p: Package) -> Seq<char> {
    identifier_spec(p.name@, p.highest@)
}

/// The link of one package's highest version.
pub fn latest_link(p: &Package) -> (r: LatestLink)
    ensures
        r.link@ == "latest/"@ + latest_id(*p),
        r.target@ == "sources/"@ + latest_id(*p),
{
    let id = identifier(p.name.as_str(), p.highest.as_str());
    let link = String::from_str("latest/").concat(id.as_str());
    let target = String::from_str("sources/").concat(id.as_str());
    LatestLink { link, target }
}

/// The links that rebuild `latest/` from scratch: exactly one per package of the index,
/// in the index's order, each named after the package's highest version. Whether the
/// source tree it points at exists is not looked at.
pub fn plan_latest_links(index: &Vec<Package>) -> (r: Vec<LatestLink>)
    ensures
        r@.len() == index@.len(),
        forall|i: int|
            0 <= i < r@.len() ==> {
                &&& (#[trigger] r@[i]).link@ == "latest/"@ + latest_id(index@[i])
                &&& r@[i].target@ == "sources/"@ + latest_id(index@[i])
            },
{
    let mut r: Vec<LatestLink> = Vec::new();
    let mut i: usize = 0;
    while i < index.len()
        invariant
            i <= index@.len(),
            r@.len() == i,
            forall|k: int|
                0 <= k < i ==> {
                    &&& (#[trigger] r@[k]).link@ == "latest/"@ + latest_id(index@[k])
                    &&& r@[k].target@ == "sources/"@ + latest_id(index@[k])
                },
        decreases index@.len() - i,
    {
        r.push(latest_link(&index[i]));
        i = i + 1;
    }
    r
}

} // verus!
