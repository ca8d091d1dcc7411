//! The reconciler: which local archives and source trees are no longer in the index.
//! Orphaned archives are moved to `trash/` under their own file name; orphaned source
//! trees are deleted.
use vstd::prelude::*;
use crate::index::{Package, strings_view};
use crate::naming::{identifier, identifier_spec, strip_archive_suffix, strip_archive_suffix_spec};

verus! {

/// The identifiers of one package's versions, in the index's order.
pub open spec fn package_ids(p: Package) -> Seq<Seq<char>> {
    p.versions_view().map_values(|v: Seq<char>| identifier_spec(p.name@, v))
}

/// The identifiers of every version of every package of an index.
pub open spec fn listed_ids(index: Seq<Package>) -> Seq<Seq<char>>
    decreases index.len(),
{
    if index.len() == 0 {
        Seq::empty()
    } else {
        listed_ids(index.drop_last()) + package_ids(index.last())
    }
}

/// An archive is orphaned when its name, without the archive extension, is not a valid
/// identifier.
pub open spec fn is_orphan_artifact(valid: Seq<Seq<char>>, file: Seq<char>) -> bool {
    !valid.contains(strip_archive_suffix_spec(file))
}

/// A source tree is orphaned when its name is not a valid identifier.
pub open spec fn is_orphan_source(valid: Seq<Seq<char>>, dir: Seq<char>) -> bool {
    !valid.contains(dir)
}

pub open spec fn orphan_artifacts(files: Seq<Seq<char>>, valid: Seq<Seq<char>>) -> Seq<Seq<char>> {
    files.filter(|f: Seq<char>| is_orphan_artifact(valid, f))
}

pub open spec fn orphan_sources(dirs: Seq<Seq<char>>, valid: Seq<Seq<char>>) -> Seq<Seq<char>> {
    dirs.filter(|d: Seq<char>| is_orphan_source(valid, d))
}

/// Lists the identifier `{name}-{version}` of every version of every package.
pub fn valid_identifiers(index: &Vec<Package>) -> (r: Vec<String>)
    ensures
        strings_view(r@) == listed_ids(index@),
{
    let mut r: Vec<String> = Vec::new();
    let mut i: usize = 0;
    while i < index.len()
        invariant
            i <= index@.len(),
            strings_view(r@) == listed_ids(index@.subrange(0, i as int)),
        decreases index@.len() - i,
    {
        let p = &index[i];
        let ghost before = strings_view(r@);
        let mut j: usize = 0;
        while j < p.versions.len()
            invariant
                j <= p.versions@.len(),
                p == index@[i as int],
                strings_view(r@) == before + package_ids(*p).subrange(0, j as int),
            decreases p.versions@.len() - j,
        {
            let id = identifier(p.name.as_str(), p.versions[j].as_str());
            let ghost prev = strings_view(r@);
            r.push(id);
            j = j + 1;
            proof {
                assert(strings_view(r@) =~= prev.push(id@));
                assert(package_ids(*p).subrange(0, j as int) =~= package_ids(*p).subrange(
                    0,
                    j - 1,
                ).push(id@));
            }
        }
        proof {
            assert(package_ids(*p).subrange(0, j as int) =~= package_ids(*p));
            assert(index@.subrange(0, i + 1).drop_last() =~= index@.subrange(0, i as int));
        }
        i = i + 1;
    }
    proof {
        assert(index@.subrange(0, index@.len() as int) =~= index@);
    }
    r
}

/// Whether `id` is one of the identifiers of `valid`.
pub fn contains_id(valid: &Vec<String>, id: &String) -> (r: bool)
    ensures
        r == strings_view(valid@).contains(id@),
{
    let mut i: usize = 0;
    while i < valid.len()
        invariant
            i <= valid@.len(),
            forall|k: int| 0 <= k < i ==> valid@[k]@ != id@,
        decreases valid@.len() - i,
    {
        if valid[i] == *id {
            proof {
                assert(strings_view(valid@)[i as int] == id@);
            }
            return true;
        }
        i = i + 1;
    }
    proof {
        assert forall|k: int| 0 <= k < strings_view(valid@).len() implies strings_view(
            valid@,
        )[k] != id@ by {
            assert(valid@[k]@ != id@);
        }
    }
    false
}

/// What reconciling removes: archive file names under `crates/` to move to `trash/`, and
/// directory names under `sources/` to delete.
pub struct ReconcilePlan {
    pub to_trash: Vec<String>,
    pub to_delete: Vec<String>,
}

/// The archives of `files` whose name without the archive extension is not in `valid`,
/// in the order given.
pub fn orphaned_artifacts(files: &Vec<String>, valid: &Vec<String>) -> (r: Vec<String>)
    ensures
        strings_view(r@) == orphan_artifacts(strings_view(files@), strings_view(valid@)),
{
    let ghost fs = strings_view(files@);
    let ghost vs = strings_view(valid@);
    let ghost pred = |f: Seq<char>| is_orphan_artifact(vs, f);
    let mut r: Vec<String> = Vec::new();
    let mut i: usize = 0;
    while i < files.len()
        invariant
            i <= files@.len(),
            fs == strings_view(files@),
            vs == strings_view(valid@),
            pred == (|f: Seq<char>| is_orphan_artifact(vs, f)),
            strings_view(r@) == fs.subrange(0, i as int).filter(pred),
        decreases files@.len() - i,
    {
        let key = strip_archive_suffix(files[i].as_str());
        let keep = contains_id(valid, &key);
        proof {
            reveal(Seq::filter);
            assert(fs.subrange(0, i + 1).drop_last() =~= fs.subrange(0, i as int));
            assert(fs.subrange(0, i + 1).last() == files@[i as int]@);
        }
        if !keep {
            let ghost prev = strings_view(r@);
            r.push(files[i].clone());
            proof {
                assert(strings_view(r@) =~= prev.push(files@[i as int]@));
            }
        }
        i = i + 1;
    }
    proof {
        assert(fs.subrange(0, files@.len() as int) =~= fs);
    }
    r
}

/// The directories of `dirs` whose name is not in `valid`, in the order given.
pub fn orphaned_sources(dirs: &Vec<String>, valid: &Vec<String>) -> (r: Vec<String>)
    ensures
        strings_view(r@) == orphan_sources(strings_view(dirs@), strings_view(valid@)),
{
    let ghost ds = strings_view(dirs@);
    let ghost vs = strings_view(valid@);
    let ghost pred = |d: Seq<char>| is_orphan_source(vs, d);
    let mut r: Vec<String> = Vec::new();
    let mut i: usize = 0;
    while i < dirs.len()
        invariant
            i <= dirs@.len(),
            ds == strings_view(dirs@),
            vs == strings_view(valid@),
            pred == (|d: Seq<char>| is_orphan_source(vs, d)),
            strings_view(r@) == ds.subrange(0, i as int).filter(pred),
        decreases dirs@.len() - i,
    {
        let keep = contains_id(valid, &dirs[i]);
        proof {
            reveal(Seq::filter);
            assert(ds.subrange(0, i + 1).drop_last() =~= ds.subrange(0, i as int));
            assert(ds.subrange(0, i + 1).last() == dirs@[i as int]@);
        }
        if !keep {
            let ghost prev = strings_view(r@);
            r.push(dirs[i].clone());
            proof {
                assert(strings_view(r@) =~= prev.push(dirs@[i as int]@));
            }
        }
        i = i + 1;
    }
    proof {
        assert(ds.subrange(0, dirs@.len() as int) =~= ds);
    }
    r
}

/// Where an orphaned archive goes: from `crates/{file}` to `trash/{file}`, under its own
/// name.
pub struct TrashMove {
    pub from: String,
    pub to: String,
}

/// The move that puts the archive `file_name` into `trash/`.
pub fn trash_move(file_name: &str) -> (r: TrashMove)
    ensures
        r.from@ == "crates/"@ + file_name@,
        r.to@ == "trash/"@ + file_name@,
{
    TrashMove {
        from: String::from_str("crates/").concat(file_name),
        to: String::from_str("trash/").concat(file_name),
    }
}

/// Plans a reconciliation of the archive files and source directories found on disk
/// against the index.
pub fn plan_reconcile(index: &Vec<Package>, crate_files: &Vec<String>, source_dirs: &Vec<String>) -> (r:
    ReconcilePlan)
    ensures
        strings_view(r.to_trash@) == orphan_artifacts(
            strings_view(crate_files@),
            listed_ids(index@),
        ),
        strings_view(r.to_delete@) == orphan_sources(strings_view(source_dirs@), listed_ids(index@)),
{
    let valid = valid_identifiers(index);
    ReconcilePlan {
        to_trash: orphaned_artifacts(crate_files, &valid),
        to_delete: orphaned_sources(source_dirs, &valid),
    }
}

/// Reconciling is safe: every archive left under `crates/` and every directory left under
/// `sources/` has its identifier in the index; every archive taken away is one of the
/// archives found under `crates/` (it is moved to `trash/` under its own name), so no
/// source directory is ever moved to `trash/`; every directory taken away is deleted.
pub proof fn lemma_reconcile_safe(
    index: Seq<Package>,
    crate_files: Seq<Seq<char>>,
    source_dirs: Seq<Seq<char>>,
)
    ensures
        forall|f: Seq<char>|
            crate_files.contains(f) && !orphan_artifacts(crate_files, listed_ids(index)).contains(f)
                ==> listed_ids(index).contains(strip_archive_suffix_spec(f)),
        forall|f: Seq<char>|
            #[trigger] orphan_artifacts(crate_files, listed_ids(index)).contains(f) ==> crate_files.contains(f)
                && !listed_ids(index).contains(strip_archive_suffix_spec(f)),
        forall|d: Seq<char>|
            source_dirs.contains(d) && !orphan_sources(source_dirs, listed_ids(index)).contains(d)
                ==> listed_ids(index).contains(d),
        forall|d: Seq<char>|
            #[trigger] orphan_sources(source_dirs, listed_ids(index)).contains(d) ==> source_dirs.contains(d)
                && !listed_ids(index).contains(d),
{
    let valid = listed_ids(index);
    let pa = |f: Seq<char>| is_orphan_artifact(valid, f);
    let ps = |d: Seq<char>| is_orphan_source(valid, d);
    assert forall|f: Seq<char>|
        crate_files.contains(f) && !orphan_artifacts(crate_files, valid).contains(f)
            implies valid.contains(strip_archive_suffix_spec(f)) by {
        let i = choose|i: int| 0 <= i < crate_files.len() && crate_files[i] == f;
        if !valid.contains(strip_archive_suffix_spec(f)) {
            crate_files.lemma_filter_contains(pa, i);
        }
    }
    assert forall|f: Seq<char>| #[trigger] orphan_artifacts(crate_files, valid).contains(f)
        implies crate_files.contains(f) && !valid.contains(strip_archive_suffix_spec(f)) by {
        crate_files.lemma_filter_contains_rev(pa, f);
        let out = crate_files.filter(pa);
        let j = choose|j: int| 0 <= j < out.len() && out[j] == f;
        crate_files.lemma_filter_pred(pa, j);
    }
    assert forall|d: Seq<char>|
        source_dirs.contains(d) && !orphan_sources(source_dirs, valid).contains(d)
            implies valid.contains(d) by {
        let i = choose|i: int| 0 <= i < source_dirs.len() && source_dirs[i] == d;
        if !valid.contains(d) {
            source_dirs.lemma_filter_contains(ps, i);
        }
    }
    assert forall|d: Seq<char>| #[trigger] orphan_sources(source_dirs, valid).contains(d)
        implies source_dirs.contains(d) && !valid.contains(d) by {
        source_dirs.lemma_filter_contains_rev(ps, d);
        let out = source_dirs.filter(ps);
        let j = choose|j: int| 0 <= j < out.len() && out[j] == d;
        source_dirs.lemma_filter_pred(ps, j);
    }
}

} // verus!
