use stowsave::checks::{
    path_to_save_exists, path_to_save_is_not_symlink, stow_directory_exists,
    stow_directory_is_grandchild_of_common_ancestor, target_path_does_not_exist, StowSaveError,
};
use stowsave::path::AbsPath;

fn path(text: &str) -> AbsPath {
    AbsPath {
        components: text
            .split('/')
            .filter(|c| !c.is_empty())
            .map(|c| c.to_string())
            .collect(),
    }
}

#[test]
fn test_stow_directory_is_grandchild_of_common_ancestor() {
    let common_ancestor = path("/home/user");

    // bad case
    let stow_dir = path("/home/user/stow");
    assert!(stow_directory_is_grandchild_of_common_ancestor(&stow_dir, &common_ancestor).is_err());

    // good case
    let stow_dir = path("/home/user/dotfiles/stow");
    assert!(stow_directory_is_grandchild_of_common_ancestor(&stow_dir, &common_ancestor).is_ok());
}

#[test]
fn grandchild_check_rejects_deeper_and_unrelated() {
    let common_ancestor = path("/home/user");
    let deep = path("/home/user/a/b/c");
    assert_eq!(
        stow_directory_is_grandchild_of_common_ancestor(&deep, &common_ancestor),
        Err(StowSaveError::NotGrandchild("/home/user/a/b/c".to_string()))
    );
    let unrelated = path("/var/user/stow");
    assert!(stow_directory_is_grandchild_of_common_ancestor(&unrelated, &common_ancestor).is_err());
    assert!(
        stow_directory_is_grandchild_of_common_ancestor(&common_ancestor, &common_ancestor).is_err()
    );
    assert!(stow_directory_is_grandchild_of_common_ancestor(&path("/a/b"), &AbsPath::root()).is_ok());
}

#[test]
fn check_errors_name_the_path() {
    let p = path("/home/user/file");
    assert_eq!(path_to_save_exists(&p, true), Ok(()));
    assert_eq!(
        path_to_save_exists(&p, false),
        Err(StowSaveError::PathDoesNotExist("/home/user/file".to_string()))
    );
    assert_eq!(path_to_save_is_not_symlink(&p, false), Ok(()));
    assert_eq!(
        path_to_save_is_not_symlink(&p, true),
        Err(StowSaveError::PathIsSymlink("/home/user/file".to_string()))
    );
    assert_eq!(stow_directory_exists(&p, true), Ok(()));
    assert_eq!(
        stow_directory_exists(&p, false),
        Err(StowSaveError::InvalidStowDirectory("/home/user/file".to_string()))
    );
    assert_eq!(target_path_does_not_exist(&p, false), Ok(()));
    assert_eq!(
        target_path_does_not_exist(&p, true),
        Err(StowSaveError::PathAlreadyExists("/home/user/file".to_string()))
    );
}

#[test]
fn error_messages() {
    let p = "/x".to_string();
    assert_eq!(
        StowSaveError::PathDoesNotExist(p.clone()).message(),
        "Path '/x' does not exist"
    );
    assert_eq!(
        StowSaveError::PathIsSymlink(p.clone()).message(),
        "Path '/x' is a symlink. Cannot save symlinks."
    );
    assert_eq!(
        StowSaveError::InvalidStowDirectory(p.clone()).message(),
        "Directory '/x' does not exist or is not a directory"
    );
    assert_eq!(
        StowSaveError::PathAlreadyExists(p.clone()).message(),
        "Path '/x' already exists in the stow directory"
    );
    assert_eq!(
        StowSaveError::NotGrandchild(p).message(),
        "The stow directory '/x' must be a grandchild of the common ancestor"
    );
}
