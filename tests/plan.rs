use stowsave::checks::StowSaveError;
use stowsave::command::Command;
use stowsave::path::AbsPath;
use stowsave::plan::{
    backup_path_command, collect_commands, execute_commands, target_path, ExecStep, FsFacts,
};

fn path(text: &str) -> AbsPath {
    AbsPath {
        components: text
            .split('/')
            .filter(|c| !c.is_empty())
            .map(|c| c.to_string())
            .collect(),
    }
}

fn all_good() -> FsFacts {
    FsFacts {
        save_exists: true,
        save_is_symlink: false,
        stow_is_dir: true,
        target_exists: false,
    }
}

#[test]
fn plan_for_file_in_sibling_tree() {
    let save = path("/home/u/proj/script");
    let stow = path("/home/u/dotfiles/pkg");
    let plan = collect_commands(&save, &stow, all_good()).unwrap();
    assert_eq!(
        plan,
        vec![
            Command::CreateBackup {
                original: path("/home/u/proj/script"),
                backup_name: "script.bak".to_string(),
            },
            Command::CreateDirIfNotExists(path("/home/u/dotfiles/pkg/proj")),
            Command::MoveToDir {
                from: path("/home/u/proj/script"),
                dest_dir: path("/home/u/dotfiles/pkg/proj"),
            },
            Command::RunStow {
                pwd: path("/home/u/dotfiles"),
                package: "pkg".to_string(),
            },
        ]
    );
    assert_eq!(
        target_path(&save, &stow),
        Some(path("/home/u/dotfiles/pkg/proj/script"))
    );
}

#[test]
fn plan_for_directory_backs_up_first() {
    let save = path("/home/u/.config/nvim");
    let stow = path("/home/u/dotfiles/vim");
    let plan = collect_commands(&save, &stow, all_good()).unwrap();
    assert_eq!(plan.len(), 4);
    assert_eq!(
        plan[0],
        Command::CreateBackup {
            original: path("/home/u/.config/nvim"),
            backup_name: "nvim.bak".to_string(),
        }
    );
    assert_eq!(
        plan[2],
        Command::MoveToDir {
            from: path("/home/u/.config/nvim"),
            dest_dir: path("/home/u/dotfiles/vim/.config"),
        }
    );
}

#[test]
fn package_one_level_too_shallow_is_rejected() {
    let save = path("/home/u/proj/script");
    let stow = path("/home/u/pkg");
    assert_eq!(
        collect_commands(&save, &stow, all_good()),
        Err(StowSaveError::NotGrandchild("/home/u/pkg".to_string()))
    );
    assert_eq!(target_path(&save, &stow), None);
}

#[test]
fn package_one_level_too_deep_is_rejected() {
    let save = path("/home/u/proj/script");
    let stow = path("/home/u/dotfiles/sub/pkg");
    assert_eq!(
        collect_commands(&save, &stow, all_good()),
        Err(StowSaveError::NotGrandchild("/home/u/dotfiles/sub/pkg".to_string()))
    );
}

#[test]
fn missing_path_to_save_is_rejected_first() {
    let save = path("/home/u/proj/script");
    let stow = path("/home/u/dotfiles/pkg");
    let facts = FsFacts {
        save_exists: false,
        save_is_symlink: true,
        stow_is_dir: false,
        target_exists: true,
    };
    assert_eq!(
        collect_commands(&save, &stow, facts),
        Err(StowSaveError::PathDoesNotExist("/home/u/proj/script".to_string()))
    );
}

#[test]
fn symlink_to_save_is_rejected() {
    let save = path("/home/u/proj/script");
    let stow = path("/home/u/dotfiles/pkg");
    let facts = FsFacts {
        save_is_symlink: true,
        ..all_good()
    };
    assert_eq!(
        collect_commands(&save, &stow, facts),
        Err(StowSaveError::PathIsSymlink("/home/u/proj/script".to_string()))
    );
}

#[test]
fn package_that_is_no_directory_is_rejected() {
    let save = path("/home/u/proj/script");
    let stow = path("/home/u/dotfiles/pkg");
    let facts = FsFacts {
        stow_is_dir: false,
        ..all_good()
    };
    assert_eq!(
        collect_commands(&save, &stow, facts),
        Err(StowSaveError::InvalidStowDirectory("/home/u/dotfiles/pkg".to_string()))
    );
}

#[test]
fn occupied_destination_is_rejected() {
    let save = path("/home/u/proj/script");
    let stow = path("/home/u/dotfiles/pkg");
    let facts = FsFacts {
        target_exists: true,
        ..all_good()
    };
    assert_eq!(
        collect_commands(&save, &stow, facts),
        Err(StowSaveError::PathAlreadyExists(
            "/home/u/dotfiles/pkg/proj/script".to_string()
        ))
    );
}

#[test]
fn backup_command_appends_suffix() {
    assert_eq!(
        backup_path_command(&path("/home/u/.vimrc")),
        Command::CreateBackup {
            original: path("/home/u/.vimrc"),
            backup_name: ".vimrc.bak".to_string(),
        }
    );
}

#[test]
fn execution_runs_in_order_and_stops_at_first_failure() {
    let save = path("/home/u/proj/script");
    let stow = path("/home/u/dotfiles/pkg");
    let plan = collect_commands(&save, &stow, all_good()).unwrap();
    assert_eq!(execute_commands(&plan, &vec![]), ExecStep::Invoke(0));
    assert_eq!(execute_commands(&plan, &vec![true]), ExecStep::Invoke(1));
    assert_eq!(execute_commands(&plan, &vec![true, true]), ExecStep::Invoke(2));
    assert_eq!(
        execute_commands(&plan, &vec![true, true, true]),
        ExecStep::Invoke(3)
    );
    assert_eq!(
        execute_commands(&plan, &vec![true, true, true, true]),
        ExecStep::Finished
    );
    assert_eq!(execute_commands(&plan, &vec![false]), ExecStep::Aborted(0));
    assert_eq!(
        execute_commands(&plan, &vec![true, true, false]),
        ExecStep::Aborted(2)
    );
    assert_eq!(execute_commands(&vec![], &vec![]), ExecStep::Finished);
}
