//! Deterministic names and addresses derived from a release's name and version.
use vstd::prelude::*;

verus! {

/// The identifier of one published release: `{name}-{version}`.
pub open spec fn identifier_spec(name: Seq<char>, version: Seq<char>) -> Seq<char> {
    name + "-"@ + version
}

/// The file name of a release's archive: `{name}-{version}.crate`.
pub open spec fn artifact_file_name_spec(name: Seq<char>, version: Seq<char>) -> Seq<char> {
    identifier_spec(name, version) + ".crate"@
}

/// Where the registry serves a release's archive.
pub open spec fn remote_url_spec(name: Seq<char>, version: Seq<char>) -> Seq<char> {
    "https://static.crates.io/crates/"@ + name + "/"@ + artifact_file_name_spec(name, version)
}

/// Does `s` end with the archive extension `.crate`?
pub open spec fn has_archive_suffix(s: Seq<char>) -> bool {
    s.len() >= ".crate"@.len() && s.subrange(s.len() - ".crate"@.len(), s.len() as int)
        == ".crate"@
}

/// A file name with its archive extension removed; a name without it is kept as it is.
pub open spec fn strip_archive_suffix_spec(s: Seq<char>) -> Seq<char> {
    if has_archive_suffix(s) {
        s.subrange(0, s.len() - ".crate"@.len())
    } else {
        s
    }
}

/// Path of an archive relative to the working directory.
pub open spec fn artifact_path_spec(name: Seq<char>, version: Seq<char>) -> Seq<char> {
    "crates/"@ + artifact_file_name_spec(name, version)
}

/// Builds the identifier `{name}-{version}` of one release.
pub fn identifier(name: &str, version: &str) -> (r: String)
    ensures
        r@ == identifier_spec(name@, version@),
{
    let mut r = String::from_str(name);
    r.append("-");
    r.append(version);
    r
}

/// Builds the archive file name `{name}-{version}.crate`.
pub fn artifact_file_name(name: &str, version: &str) -> (r: String)
    ensures
        r@ == artifact_file_name_spec(name@, version@),
{
    let mut r = identifier(name, version);
    r.append(".crate");
    r
}

/// Builds the archive's path under the working directory: `crates/{name}-{version}.crate`.
pub fn artifact_path(name: &str, version: &str) -> (r: String)
    ensures
        r@ == artifact_path_spec(name@, version@),
{
    let file = artifact_file_name(name, version);
    let r = String::from_str("crates/");
    r.concat(file.as_str())
}

/// Builds the registry address of a release's archive.
pub fn remote_url(name: &str, version: &str) -> (r: String)
    ensures
        r@ == remote_url_spec(name@, version@),
{
    let file = artifact_file_name(name, version);
    let mut r = String::from_str("https://static.crates.io/crates/");
    r.append(name);
    r.append("/");
    r.append(file.as_str());
    proof {
        assert(r@ == "https://static.crates.io/crates/"@ + name@ + "/"@ + file@);
    }
    r
}

/// Removes the archive extension `.crate` from the end of a file name, if it is there.
pub fn strip_archive_suffix(s: &str) -> (r: String)
    ensures
        r@ == strip_archive_suffix_spec(s@),
{
    let n = s.unicode_len();
    let ext = String::from_str(".crate");
    proof {
        reveal_strlit(".crate");
    }
    if n >= 6 {
        let tail = String::from_str(s.substring_char(n - 6, n));
        if tail == ext {
            return String::from_str(s.substring_char(0, n - 6));
        }
    }
    String::from_str(s)
}

/// The two addresses of a release are functions of its name and version alone, and the
/// name of the directory it is extracted to is its identifier.
pub proof fn lemma_names_deterministic(n1: Seq<char>, v1: Seq<char>, n2: Seq<char>, v2: Seq<char>)
    requires
        n1 == n2,
        v1 == v2,
    ensures
        remote_url_spec(n1, v1) == remote_url_spec(n2, v2),
        artifact_path_spec(n1, v1) == artifact_path_spec(n2, v2),
        strip_archive_suffix_spec(artifact_file_name_spec(n1, v1)) == identifier_spec(n1, v1),
{
    lemma_strip_appended_suffix(identifier_spec(n1, v1));
}

/// For any archive `X.crate`, the extracted directory name is `X`.
pub proof fn lemma_strip_appended_suffix(x: Seq<char>)
    ensures
        strip_archive_suffix_spec(x + ".crate"@) == x,
{
    reveal_strlit(".crate");
    let s = x + ".crate"@;
    assert(s.subrange(s.len() - 6, s.len() as int) =~= ".crate"@);
    assert(s.subrange(0, s.len() - 6) =~= x);
}

} // verus!
