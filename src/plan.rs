use vstd::prelude::*;
use vstd::string::*;

use crate::checks::{
    path_to_save_exists, path_to_save_is_not_symlink, stow_directory_exists,
    stow_directory_is_grandchild_of_common_ancestor, target_path_does_not_exist, StowSaveError,
};
use crate::command::{Command, CommandModel};
use crate::path::{
    common_ancestor, find_common_ancestor, is_grandchild, is_prefix, path_text, AbsPath,
};

verus! {

/// What the filesystem reported about the paths involved in saving, taken
/// after both paths were resolved.
#[derive(Clone, Copy, Debug, PartialEq, Eq)]
pub struct FsFacts {
    /// The path to save exists.
    pub save_exists: bool,
    /// The path to save is itself a symbolic link.
    pub save_is_symlink: bool,
    /// The stow package exists and is a directory.
    pub stow_is_dir: bool,
    /// Something occupies the destination inside the package (see
    /// `target_path`).
    pub target_exists: bool,
}

/// The name of the backup of `p`: its last component followed by `.bak`.
pub open spec fn backup_name_of(p: Seq<Seq<char>>) -> Seq<char> {
    p.last() + ".bak"@
}

/// Where the path to save lands: inside the package, at the place it has
/// below the common ancestor of the two paths.
pub open spec fn target_of(save: Seq<Seq<char>>, stow: Seq<Seq<char>>) -> Seq<Seq<char>> {
    stow + save.subrange(common_ancestor(save, stow).len() as int, save.len() as int)
}

/// The plan that saves `save` into the package `stow`: back up, create the
/// destination directory, move, then run stow from the package's parent.
pub open spec fn plan_of(save: Seq<Seq<char>>, stow: Seq<Seq<char>>) -> Seq<CommandModel> {
    let dest_dir = target_of(save, stow).drop_last();
    seq![
        CommandModel::CreateBackup { original: save, backup_name: backup_name_of(save) },
        CommandModel::CreateDirIfNotExists(dest_dir),
        CommandModel::MoveToDir { from: save, dest_dir: dest_dir },
        CommandModel::RunStow { pwd: stow.drop_last(), package: stow.last() },
    ]
}

/// The values of a sequence of commands.
pub open spec fn commands_view(cmds: Seq<Command>) -> Seq<CommandModel> {
    cmds.map_values(|c: Command| c@)
}

/// The command that copies `original` to its backup beside it.
pub fn backup_path_command(original: &AbsPath) -> (r: Command)
    requires
        original@.len() > 0,
    ensures
        r@ == (CommandModel::CreateBackup {
            original: original@,
            backup_name: backup_name_of(original@),
        }),
{
    let name = original.components[original.components.len() - 1].clone();
    let backup_name = name.concat(".bak");
    Command::CreateBackup { original: original.clone_path(), backup_name }
}

/// The destination of `path_to_save` inside `stow_pkg`, when the package lies
/// two components below the common ancestor of the two paths.
pub fn target_path(path_to_save: &AbsPath, stow_pkg: &AbsPath) -> (r: Option<AbsPath>)
    ensures
        is_grandchild(stow_pkg@, common_ancestor(path_to_save@, stow_pkg@)) ==> (r matches Some(t)
            && t@ == target_of(path_to_save@, stow_pkg@)),
        !is_grandchild(stow_pkg@, common_ancestor(path_to_save@, stow_pkg@)) ==> r is None,
{
    let ca = find_common_ancestor(path_to_save, stow_pkg);
    if stow_directory_is_grandchild_of_common_ancestor(stow_pkg, &ca).is_err() {
        return None;
    }
    match path_to_save.strip_prefix(&ca) {
        Some(rel) => Some(stow_pkg.join(&rel)),
        None => None,
    }
}

/// Checks, in order, that the path to save exists and is not a symbolic
/// link, that the package is a directory two components below the common
/// ancestor of the two paths, and that the destination is free; then plans
/// the backup, the destination directory, the move and the stow run. Both
/// paths are already resolved.
pub fn collect_commands(path_to_save: &AbsPath, stow_pkg: &AbsPath, facts: FsFacts) -> (r: Result<
    Vec<Command>,
    StowSaveError,
>)
    requires
        path_to_save@.len() > 0,
    ensures
        !facts.save_exists ==> (r matches Err(StowSaveError::PathDoesNotExist(m)) && m@
            == path_text(path_to_save@)),
        facts.save_exists && facts.save_is_symlink ==> (r matches Err(
            StowSaveError::PathIsSymlink(m),
        ) && m@ == path_text(path_to_save@)),
        facts.save_exists && !facts.save_is_symlink && !facts.stow_is_dir ==> (r matches Err(
            StowSaveError::InvalidStowDirectory(m),
        ) && m@ == path_text(stow_pkg@)),
        facts.save_exists && !facts.save_is_symlink && facts.stow_is_dir && !is_grandchild(
            stow_pkg@,
            common_ancestor(path_to_save@, stow_pkg@),
        ) ==> (r matches Err(StowSaveError::NotGrandchild(m)) && m@ == path_text(stow_pkg@)),
        facts.save_exists && !facts.save_is_symlink && facts.stow_is_dir && is_grandchild(
            stow_pkg@,
            common_ancestor(path_to_save@, stow_pkg@),
        ) && facts.target_exists ==> (r matches Err(StowSaveError::PathAlreadyExists(m)) && m@
            == path_text(target_of(path_to_save@, stow_pkg@))),
        facts.save_exists && !facts.save_is_symlink && facts.stow_is_dir && is_grandchild(
            stow_pkg@,
            common_ancestor(path_to_save@, stow_pkg@),
        ) && !facts.target_exists ==> (r matches Ok(cmds) && commands_view(cmds@) == plan_of(
            path_to_save@,
            stow_pkg@,
        )),
{
    let mut commands: Vec<Command> = Vec::new();
    commands.push(backup_path_command(path_to_save));

    if let Err(e) = path_to_save_exists(path_to_save, facts.save_exists) {
        return Err(e);
    }
    if let Err(e) = path_to_save_is_not_symlink(path_to_save, facts.save_is_symlink) {
        return Err(e);
    }
    if let Err(e) = stow_directory_exists(stow_pkg, facts.stow_is_dir) {
        return Err(e);
    }
    let common = find_common_ancestor(path_to_save, stow_pkg);
    if let Err(e) = stow_directory_is_grandchild_of_common_ancestor(stow_pkg, &common) {
        return Err(e);
    }
    let relative = match path_to_save.strip_prefix(&common) {
        Some(rel) => rel,
        None => {
            proof {
                assert(is_prefix(common@, path_to_save@));
            }
            return unreached();
        },
    };
    let target = stow_pkg.join(&relative);
    if let Err(e) = target_path_does_not_exist(&target, facts.target_exists) {
        return Err(e);
    }
    let target_dir = match target.parent() {
        Some(d) => d,
        None => {
            return unreached();
        },
    };
    commands.push(Command::CreateDirIfNotExists(target_dir.clone_path()));
    commands.push(Command::MoveToDir { from: path_to_save.clone_path(), dest_dir: target_dir });

    let package = match stow_pkg.file_name() {
        Some(n) => n,
        None => {
            return unreached();
        },
    };
    let pwd = match stow_pkg.parent() {
        Some(p) => p,
        None => {
            return unreached();
        },
    };
    commands.push(Command::RunStow { pwd, package });
    assert(commands_view(commands@) =~= plan_of(path_to_save@, stow_pkg@));
    Ok(commands)
}

/// What to do next while running a plan.
#[derive(Clone, Copy, Debug, PartialEq, Eq)]
pub enum ExecStep {
    /// Run the command at this index.
    Invoke(usize),
    /// Every command ran and succeeded.
    Finished,
    /// The command at this index failed; nothing after it runs.
    Aborted(usize),
}

/// `step` is the next step of a plan of `n` commands, given the outcomes
/// (success or not) of the commands run so far, in order: the first failure
/// aborts the run; otherwise the next command runs, if any is left.
pub open spec fn is_next_step(n: nat, outcomes: Seq<bool>, step: ExecStep) -> bool {
    if exists|k: int| 0 <= k < outcomes.len() && !outcomes[k] {
        step matches ExecStep::Aborted(k) && k < outcomes.len() && !outcomes[k as int] && forall|
            j: int,
        |
            0 <= j < k ==> outcomes[j]
    } else if outcomes.len() < n {
        step == ExecStep::Invoke(outcomes.len() as usize)
    } else {
        step == ExecStep::Finished
    }
}

/// Decides the next step of running `commands` in sequence, given the
/// outcomes of those run so far: commands run one after another and the
/// first one to fail ends the run.
pub fn execute_commands(commands: &Vec<Command>, outcomes: &Vec<bool>) -> (r: ExecStep)
    ensures
        is_next_step(commands@.len(), outcomes@, r),
{
    let mut k: usize = 0;
    while k < outcomes.len()
        invariant
            k <= outcomes@.len(),
            forall|j: int| 0 <= j < k ==> outcomes@[j],
        decreases outcomes@.len() - k,
    {
        if !outcomes[k] {
            return ExecStep::Aborted(k);
        }
        k += 1;
    }
    if outcomes.len() < commands.len() {
        ExecStep::Invoke(outcomes.len())
    } else {
        ExecStep::Finished
    }
}

/// While a saving plan runs, a command starts only after every earlier one
/// succeeded: the move only after the backup (and the directory creation),
/// and stow only after the move.
pub proof fn lemma_saving_order(
    save: Seq<Seq<char>>,
    stow: Seq<Seq<char>>,
    outcomes: Seq<bool>,
    step: ExecStep,
)
    requires
        is_next_step(plan_of(save, stow).len(), outcomes, step),
    ensures
        plan_of(save, stow)[0] is CreateBackup,
        plan_of(save, stow)[2] is MoveToDir,
        plan_of(save, stow)[3] is RunStow,
        step matches ExecStep::Invoke(i) ==> i == outcomes.len() && forall|j: int|
            0 <= j < i ==> outcomes[j],
        step matches ExecStep::Invoke(i) ==> (i >= 2 ==> outcomes[0]) && (i >= 3 ==> outcomes[2]),
        step is Finished ==> outcomes.len() >= 4 && outcomes[0] && outcomes[2] && outcomes[3],
{
}

} // verus!
