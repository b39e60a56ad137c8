use vstd::prelude::*;
use crate::matcher::Pattern;
use crate::rules::{apply_rules, rules_of, transform};

verus! {

/// The last component of `path`, if it names a file or directory.
pub uninterp spec fn file_name_of(path: Seq<char>) -> Option<Seq<char>>;

/// `path` without its last component, if it has one.
pub uninterp spec fn parent_of(path: Seq<char>) -> Option<Seq<char>>;

/// `name` placed under the directory `dir`.
pub uninterp spec fn join_of(dir: Seq<char>, name: Seq<char>) -> Seq<char>;

/// Whether `a` and `b` name the same path, component by component.
pub uninterp spec fn same_path_of(a: Seq<char>, b: Seq<char>) -> bool;

/// Relies on `std::path::Path::file_name`: `None` where the path ends in `..`
/// or has no components. A name cut from a `&str` is valid UTF-8, so the
/// conversion back keeps it as it is.
#[verifier::external_body]
fn file_name(path: &str) -> (r: Option<String>)
    ensures
        r matches Some(n) ==> file_name_of(path@) == Some(n@),
        r is None ==> file_name_of(path@) is None,
{
    match std::path::Path::new(path).file_name() {
        Some(n) => Some(n.to_string_lossy().into_owned()),
        None => None,
    }
}

/// Relies on `std::path::Path::parent`: `None` where the path ends in a root
/// or is empty.
#[verifier::external_body]
fn parent(path: &str) -> (r: Option<String>)
    ensures
        r matches Some(d) ==> parent_of(path@) == Some(d@),
        r is None ==> parent_of(path@) is None,
{
    match std::path::Path::new(path).parent() {
        Some(d) => Some(d.to_string_lossy().into_owned()),
        None => None,
    }
}

/// Relies on `std::path::Path::join`.
#[verifier::external_body]
fn join(dir: &str, name: &str) -> (r: String)
    ensures
        r@ == join_of(dir@, name@),
{
    std::path::Path::new(dir).join(name).to_string_lossy().into_owned()
}

/// Relies on `==` of `std::path::Path`, which compares components.
#[verifier::external_body]
pub(crate) fn same_path(a: &str, b: &str) -> (r: bool)
    ensures
        r == same_path_of(a@, b@),
{
    std::path::Path::new(a) == std::path::Path::new(b)
}

/// Where `path` goes under `rules`: its file name transformed, under the same
/// parent directory. `None` for a path with no file name.
pub open spec fn renamed_path(path: Seq<char>, replace_all: bool, rules: Seq<(Seq<char>, Seq<char>)>) -> Option<Seq<char>> {
    match (file_name_of(path), parent_of(path)) {
        (Some(name), Some(dir)) => Some(join_of(dir, apply_rules(rules, replace_all, name))),
        _ => None,
    }
}

/// The path that `path` is renamed to by `patterns`: the rules rewrite the
/// file name only, and the parent directory is kept.
pub fn get_renamed_path(path: &str, replace_all: bool, patterns: &[Pattern]) -> (r: Option<String>)
    ensures
        r matches Some(t) ==> renamed_path(path@, replace_all, rules_of(patterns@)) == Some(t@),
        r is None ==> renamed_path(path@, replace_all, rules_of(patterns@)) is None,
{
    let name = match file_name(path) {
        Some(n) => n,
        None => {
            return None;
        },
    };
    let dir = match parent(path) {
        Some(d) => d,
        None => {
            return None;
        },
    };
    let renamed = transform(name.as_str(), replace_all, patterns);
    Some(join(dir.as_str(), renamed.as_str()))
}

} // verus!
