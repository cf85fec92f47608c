//! Module-name normalization of the default module loader.

use crate::error::Error;
use vstd::prelude::*;

verus! {

/// Whether the path `name` begins with the component `.` (`std::path`'s
/// `Path::starts_with(".")`, which compares whole components).
pub uninterp spec fn path_starts_with_dot(name: Seq<char>) -> bool;

/// The parent of the path `base`, as `std::path`'s `Path::parent` gives it.
pub uninterp spec fn path_parent(base: Seq<char>) -> Option<Seq<char>>;

/// The path `dir` joined with `name`, as `std::path`'s `Path::join` gives it.
pub uninterp spec fn path_join(dir: Seq<char>, name: Seq<char>) -> Seq<char>;

/// `std::path::Path::starts_with` with the prefix `"."`. Claimed: the result
/// is a function of the path alone, named [`path_starts_with_dot`].
#[verifier::external_body]
fn starts_with_current_dir(name: &str) -> (r: bool)
    ensures
        r == path_starts_with_dot(name@),
{
    std::path::Path::new(name).starts_with(".")
}

/// `std::path::Path::parent`, the result turned into a `String`. Claimed: the
/// result is a function of the path alone, named [`path_parent`].
#[verifier::external_body]
fn parent_of(base: &str) -> (r: Option<String>)
    ensures
        match r {
            Some(p) => path_parent(base@) == Some(p@),
            None => path_parent(base@) is None,
        },
{
    match std::path::Path::new(base).parent() {
        Some(p) => Some(p.to_string_lossy().into_owned()),
        None => None,
    }
}

/// `std::path::Path::join`, the result turned into a `String`. Claimed: the
/// result is a function of the two paths alone, named [`path_join`].
#[verifier::external_body]
fn join_path(dir: &str, name: &str) -> (r: String)
    ensures
        r@ == path_join(dir@, name@),
{
    std::path::Path::new(dir).join(name).to_string_lossy().into_owned()
}

/// A normalized module name.
#[derive(Debug, PartialEq, Eq)]
pub enum ModuleName {
    /// The name as given: it does not begin with `.`.
    Resolved(String),
    /// A name relative to the importing module, joined to that module's
    /// directory; it still has to be made canonical on the file system.
    Canonicalize(String),
}

/// The normalized name for `name`, given whether it begins with `.` and, for
/// such a name, the directory of the importing module joined with it (`None`
/// when the importing module's path has no parent).
pub fn resolve_module_name(name: &str, relative: bool, joined: Option<String>) -> (r: Result<
    ModuleName,
    Error,
>)
    ensures
        !relative ==> (r matches Ok(ModuleName::Resolved(s)) && s@ == name@),
        relative && joined is None ==> r == Err::<ModuleName, Error>(Error::Unknown),
        relative && joined is Some ==> r == Ok::<ModuleName, Error>(
            ModuleName::Canonicalize(joined.unwrap()),
        ),
{
    if !relative {
        Ok(ModuleName::Resolved(name.to_owned()))
    } else {
        match joined {
            Some(path) => Ok(ModuleName::Canonicalize(path)),
            None => Err(Error::Unknown),
        }
    }
}

/// The default loader's normalization of the name `name` imported from the
/// module `base`: a name that does not begin with `.` stays as it is; one
/// that does is joined to the directory of `base`, and fails when `base` has
/// no parent.
pub fn normalize_module_name(base: &str, name: &str) -> (r: Result<ModuleName, Error>)
    ensures
        !path_starts_with_dot(name@) ==> (r matches Ok(ModuleName::Resolved(s)) && s@ == name@),
        path_starts_with_dot(name@) && path_parent(base@) is None ==> r == Err::<
            ModuleName,
            Error,
        >(Error::Unknown),
        path_starts_with_dot(name@) && path_parent(base@) is Some ==> (r matches Ok(
            ModuleName::Canonicalize(s),
        ) && s@ == path_join(path_parent(base@).unwrap(), name@)),
{
    let relative = starts_with_current_dir(name);
    let joined = if relative {
        match parent_of(base) {
            Some(dir) => Some(join_path(dir.as_str(), name)),
            None => None,
        }
    } else {
        None
    };
    resolve_module_name(name, relative, joined)
}

} // verus!
