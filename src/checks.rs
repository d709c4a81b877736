use vstd::prelude::*;
use vstd::string::*;

use crate::path::{is_grandchild, path_text, AbsPath};

verus! {

/// Why saving a path was refused.
#[derive(Clone, Debug, PartialEq, Eq)]
pub enum StowSaveError {
    /// The path to save does not exist.
    PathDoesNotExist(String),
    /// The path to save is itself a symbolic link.
    PathIsSymlink(String),
    /// The stow package does not exist or is not a directory.
    InvalidStowDirectory(String),
    /// Something already occupies the destination inside the package.
    PathAlreadyExists(String),
    /// The stow package is not exactly two components below the common
    /// ancestor of it and the path to save.
    NotGrandchild(String),
}

impl StowSaveError {
    /// A human-readable description naming the path concerned.
    pub fn message(&self) -> (r: String)
        ensures
            r@ == match self {
                StowSaveError::PathDoesNotExist(p) => "Path '"@ + p@ + "' does not exist"@,
                StowSaveError::PathIsSymlink(p) => "Path '"@ + p@
                    + "' is a symlink. Cannot save symlinks."@,
                StowSaveError::InvalidStowDirectory(p) => "Directory '"@ + p@
                    + "' does not exist or is not a directory"@,
                StowSaveError::PathAlreadyExists(p) => "Path '"@ + p@
                    + "' already exists in the stow directory"@,
                StowSaveError::NotGrandchild(p) => "The stow directory '"@ + p@
                    + "' must be a grandchild of the common ancestor"@,
            },
    {
        let mut s = String::new();
        match self {
            StowSaveError::PathDoesNotExist(p) => {
                s.append("Path '");
                s.append(p.as_str());
                s.append("' does not exist");
            },
            StowSaveError::PathIsSymlink(p) => {
                s.append("Path '");
                s.append(p.as_str());
                s.append("' is a symlink. Cannot save symlinks.");
            },
            StowSaveError::InvalidStowDirectory(p) => {
                s.append("Directory '");
                s.append(p.as_str());
                s.append("' does not exist or is not a directory");
            },
            StowSaveError::PathAlreadyExists(p) => {
                s.append("Path '");
                s.append(p.as_str());
                s.append("' already exists in the stow directory");
            },
            StowSaveError::NotGrandchild(p) => {
                s.append("The stow directory '");
                s.append(p.as_str());
                s.append("' must be a grandchild of the common ancestor");
            },
        }
        s
    }
}

/// Accepts a path to save that exists; `exists` is what the filesystem
/// reported for it.
pub fn path_to_save_exists(path_to_save: &AbsPath, exists: bool) -> (r: Result<(), StowSaveError>)
    ensures
        exists ==> r is Ok,
        !exists ==> (r matches Err(StowSaveError::PathDoesNotExist(m)) && m@ == path_text(
            path_to_save@,
        )),
{
    if !exists {
        return Err(StowSaveError::PathDoesNotExist(path_to_save.to_text()));
    }
    Ok(())
}

/// Accepts a path to save that is not itself a symbolic link; `is_symlink` is
/// what the path's own metadata reported.
pub fn path_to_save_is_not_symlink(path_to_save: &AbsPath, is_symlink: bool) -> (r: Result<
    (),
    StowSaveError,
>)
    ensures
        !is_symlink ==> r is Ok,
        is_symlink ==> (r matches Err(StowSaveError::PathIsSymlink(m)) && m@ == path_text(
            path_to_save@,
        )),
{
    if is_symlink {
        return Err(StowSaveError::PathIsSymlink(path_to_save.to_text()));
    }
    Ok(())
}

/// Accepts a stow package that is an existing directory; `is_dir` is what the
/// filesystem reported for it.
pub fn stow_directory_exists(stow_dir: &AbsPath, is_dir: bool) -> (r: Result<(), StowSaveError>)
    ensures
        is_dir ==> r is Ok,
        !is_dir ==> (r matches Err(StowSaveError::InvalidStowDirectory(m)) && m@ == path_text(
            stow_dir@,
        )),
{
    if !is_dir {
        return Err(StowSaveError::InvalidStowDirectory(stow_dir.to_text()));
    }
    Ok(())
}

/// Accepts a destination that nothing occupies yet; `exists` is what the
/// filesystem reported for it.
pub fn target_path_does_not_exist(target_path: &AbsPath, exists: bool) -> (r: Result<
    (),
    StowSaveError,
>)
    ensures
        !exists ==> r is Ok,
        exists ==> (r matches Err(StowSaveError::PathAlreadyExists(m)) && m@ == path_text(
            target_path@,
        )),
{
    if exists {
        return Err(StowSaveError::PathAlreadyExists(target_path.to_text()));
    }
    Ok(())
}

/// Accepts a stow package that lies exactly two components below
/// `common_ancestor`.
pub fn stow_directory_is_grandchild_of_common_ancestor(
    stow_dir: &AbsPath,
    common_ancestor: &AbsPath,
) -> (r: Result<(), StowSaveError>)
    ensures
        is_grandchild(stow_dir@, common_ancestor@) ==> r is Ok,
        !is_grandchild(stow_dir@, common_ancestor@) ==> (r matches Err(
            StowSaveError::NotGrandchild(m),
        ) && m@ == path_text(stow_dir@)),
{
    match stow_dir.strip_prefix(common_ancestor) {
        Some(rel) => {
            if rel.len() == 2 {
                proof {
                    assert(rel@.map_values(|c: String| c@).len() == rel@.len());
                }
                return Ok(());
            }
            assert(rel@.map_values(|c: String| c@).len() == rel@.len());
        },
        None => {},
    }
    Err(StowSaveError::NotGrandchild(stow_dir.to_text()))
}

} // verus!
