use vstd::prelude::*;

use crate::path::AbsPath;

verus! {

/// A filesystem side effect to perform.
#[derive(Clone, Debug, PartialEq, Eq)]
pub enum Command {
    /// Create a directory and all its missing parents; nothing to do if it
    /// is there already.
    CreateDirIfNotExists(AbsPath),
    /// Move a file or directory into another directory, keeping its name.
    /// Fails if `dest_dir` already holds an entry of that name.
    MoveToDir {
        /// The file or directory to move.
        from: AbsPath,
        /// The directory into which to move.
        dest_dir: AbsPath,
    },
    /// Copy `original`, recursively for a directory, to `backup_name` beside
    /// it.
    CreateBackup { original: AbsPath, backup_name: String },
    /// Run the stow tool on `package` from the directory `pwd`.
    RunStow { pwd: AbsPath, package: String },
}

/// The mathematical value of a `Command`.
pub enum CommandModel {
    CreateDirIfNotExists(Seq<Seq<char>>),
    MoveToDir { from: Seq<Seq<char>>, dest_dir: Seq<Seq<char>> },
    CreateBackup { original: Seq<Seq<char>>, backup_name: Seq<char> },
    RunStow { pwd: Seq<Seq<char>>, package: Seq<char> },
}

impl View for Command {
    type V = CommandModel;

    open spec fn view(&self) -> CommandModel {
        match self {
            Command::CreateDirIfNotExists(p) => CommandModel::CreateDirIfNotExists(p@),
            Command::MoveToDir { from, dest_dir } => CommandModel::MoveToDir {
                from: from@,
                dest_dir: dest_dir@,
            },
            Command::CreateBackup { original, backup_name } => CommandModel::CreateBackup {
                original: original@,
                backup_name: backup_name@,
            },
            Command::RunStow { pwd, package } => CommandModel::RunStow {
                pwd: pwd@,
                package: package@,
            },
        }
    }
}

} // verus!
