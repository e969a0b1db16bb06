//! The command line as a source of settings.
//!
//! The structures here hold the flags as they were captured and implement the
//! capability interfaces directly, so parsed arguments can stand first in a
//! list of sources with nothing in between.
//!
//! Every on/off setting is captured as a paired flag group. Flag capture lets a
//! later flag of a pair clear the earlier one, so no pair ever has both flags
//! set; a structure for which that holds is *consistent*, and only a
//! consistent one can be resolved. [`FileArgs::conflict`] and
//! [`WalkArgs::conflict`] name the offending field of one that is not.

use crate::flag::{conflicting, is_conflicting, resolve, tri_state, Polarity};
use crate::layer::{Config, Dict, Engine, Walk};
use crate::locale::Locale;
use crate::source::{ConfigSource, DictSource, EngineSource, WalkSource};
use vstd::prelude::*;

verus! {

/// The settings that are controlled by a paired flag group.
#[derive(Debug, Clone, Copy, PartialEq, Eq, Structural)]
pub enum Field {
    Binary,
    CheckFilename,
    CheckFile,
    IgnoreHidden,
    IgnoreFiles,
    IgnoreDot,
    IgnoreVcs,
    IgnoreGlobal,
    IgnoreParent,
}

impl Field {
    /// How the flags of each group map onto its field. The engine flags name
    /// what they switch on; the traversal flags name a restriction that they
    /// lift, so their positive flag switches the field off.
    pub open spec fn spec_polarity(self) -> Polarity {
        match self {
            Field::Binary | Field::CheckFilename | Field::CheckFile => Polarity::Direct,
            Field::IgnoreHidden
            | Field::IgnoreFiles
            | Field::IgnoreDot
            | Field::IgnoreVcs
            | Field::IgnoreGlobal
            | Field::IgnoreParent => Polarity::Inverted,
        }
    }

    /// How the flags of this group map onto its field.
    #[verifier::when_used_as_spec(spec_polarity)]
    pub fn polarity(self) -> (polarity: Polarity)
        ensures
            polarity == self.polarity(),
    {
        match self {
            Field::Binary | Field::CheckFilename | Field::CheckFile => Polarity::Direct,
            Field::IgnoreHidden
            | Field::IgnoreFiles
            | Field::IgnoreDot
            | Field::IgnoreVcs
            | Field::IgnoreGlobal
            | Field::IgnoreParent => Polarity::Inverted,
        }
    }
}

/// The engine overrides given on the command line.
#[derive(Debug, Clone, Copy, PartialEq, Eq, Structural)]
pub struct FileArgs {
    /// `--binary`: search binary files.
    pub binary: bool,
    pub no_binary: bool,
    /// `--no-check-filenames`: skip verifying spelling in file names.
    pub no_check_filenames: bool,
    pub check_filenames: bool,
    /// `--no-check-files`: skip verifying spelling in files.
    pub no_check_files: bool,
    pub check_files: bool,
    /// `--locale`: the dictionary locale.
    pub locale: Option<Locale>,
}

/// The top-level configuration overrides given on the command line.
#[derive(Debug, Clone, Copy, PartialEq, Eq, Structural)]
pub struct ConfigArgs {
    pub walk: WalkArgs,
}

/// The traversal overrides given on the command line.
#[derive(Debug, Clone, Copy, PartialEq, Eq, Structural)]
pub struct WalkArgs {
    /// `--hidden`: search hidden files and directories.
    pub hidden: bool,
    pub no_hidden: bool,
    /// `--no-ignore`: don't respect ignore files.
    pub no_ignore: bool,
    pub ignore: bool,
    /// `--no-ignore-dot`: don't respect .ignore files.
    pub no_ignore_dot: bool,
    pub ignore_dot: bool,
    /// `--no-ignore-global`: don't respect global ignore files.
    pub no_ignore_global: bool,
    pub ignore_global: bool,
    /// `--no-ignore-parent`: don't respect ignore files in parent directories.
    pub no_ignore_parent: bool,
    pub ignore_parent: bool,
    /// `--no-ignore-vcs`: don't respect ignore files in vcs directories.
    pub no_ignore_vcs: bool,
    pub ignore_vcs: bool,
}

impl FileArgs {
    /// The arguments of a command line that gives no engine flag.
    pub open spec fn none() -> FileArgs {
        FileArgs {
            binary: false,
            no_binary: false,
            no_check_filenames: false,
            check_filenames: false,
            no_check_files: false,
            check_files: false,
            locale: None,
        }
    }

    /// The first field, in the order of [`Field`], whose pair has both flags
    /// set; `None` when there is no such field.
    pub open spec fn first_conflict(&self) -> Option<Field> {
        if conflicting(self.binary, self.no_binary) {
            Some(Field::Binary)
        } else if conflicting(self.check_filenames, self.no_check_filenames) {
            Some(Field::CheckFilename)
        } else if conflicting(self.check_files, self.no_check_files) {
            Some(Field::CheckFile)
        } else {
            None
        }
    }

    /// Names the first field whose pair has both flags set. The arguments are
    /// consistent exactly when there is none.
    pub fn conflict(&self) -> (field: Option<Field>)
        ensures
            field == self.first_conflict(),
            field is None <==> self.consistent(),
    {
        if is_conflicting(self.binary, self.no_binary) {
            Some(Field::Binary)
        } else if is_conflicting(self.check_filenames, self.no_check_filenames) {
            Some(Field::CheckFilename)
        } else if is_conflicting(self.check_files, self.no_check_files) {
            Some(Field::CheckFile)
        } else {
            None
        }
    }
}

impl Default for FileArgs {
    /// The arguments of a command line that gives no engine flag.
    fn default() -> (args: FileArgs)
        ensures
            args == FileArgs::none(),
    {
        FileArgs {
            binary: false,
            no_binary: false,
            no_check_filenames: false,
            check_filenames: false,
            no_check_files: false,
            check_files: false,
            locale: None,
        }
    }
}

impl EngineSource for FileArgs {
    /// No engine pair has both flags set.
    open spec fn consistent(&self) -> bool {
        &&& !conflicting(self.binary, self.no_binary)
        &&& !conflicting(self.check_filenames, self.no_check_filenames)
        &&& !conflicting(self.check_files, self.no_check_files)
    }

    open spec fn as_engine(&self) -> Engine {
        Engine {
            binary: tri_state(self.binary, self.no_binary, Field::Binary.polarity()),
            check_filename: tri_state(
                self.check_filenames,
                self.no_check_filenames,
                Field::CheckFilename.polarity(),
            ),
            check_file: tri_state(
                self.check_files,
                self.no_check_files,
                Field::CheckFile.polarity(),
            ),
            dict: self.as_dict(),
        }
    }

    fn binary(&self) -> (value: Option<bool>) {
        resolve(self.binary, self.no_binary, Field::Binary.polarity())
    }

    fn check_filename(&self) -> (value: Option<bool>) {
        resolve(self.check_filenames, self.no_check_filenames, Field::CheckFilename.polarity())
    }

    fn check_file(&self) -> (value: Option<bool>) {
        resolve(self.check_files, self.no_check_files, Field::CheckFile.polarity())
    }

    fn dict(&self) -> (dict: Option<&dyn DictSource>)
        ensures
            dict is Some,
    {
        Some(self)
    }
}

impl DictSource for FileArgs {
    open spec fn as_dict(&self) -> Dict {
        Dict { locale: self.locale }
    }

    fn locale(&self) -> (locale: Option<Locale>) {
        self.locale
    }
}

impl ConfigArgs {
    /// Names the first traversal field whose pair has both flags set. The
    /// arguments are consistent exactly when there is none.
    pub fn conflict(&self) -> (field: Option<Field>)
        ensures
            field == self.walk.first_conflict(),
            field is None <==> self.consistent(),
    {
        self.walk.conflict()
    }
}

impl Default for ConfigArgs {
    /// The arguments of a command line that gives no configuration flag.
    fn default() -> (args: ConfigArgs)
        ensures
            args.walk == WalkArgs::none(),
    {
        ConfigArgs { walk: WalkArgs::default() }
    }
}

impl ConfigSource for ConfigArgs {
    /// No traversal pair has both flags set.
    open spec fn consistent(&self) -> bool {
        self.walk.consistent()
    }

    open spec fn as_config(&self) -> Config {
        Config { walk: self.walk.as_walk() }
    }

    fn walk(&self) -> (walk: Option<&dyn WalkSource>)
        ensures
            walk is Some,
    {
        Some(&self.walk)
    }
}

impl WalkArgs {
    /// The arguments of a command line that gives no traversal flag.
    pub open spec fn none() -> WalkArgs {
        WalkArgs {
            hidden: false,
            no_hidden: false,
            no_ignore: false,
            ignore: false,
            no_ignore_dot: false,
            ignore_dot: false,
            no_ignore_global: false,
            ignore_global: false,
            no_ignore_parent: false,
            ignore_parent: false,
            no_ignore_vcs: false,
            ignore_vcs: false,
        }
    }

    /// The first field, in the order of [`Field`], whose pair has both flags
    /// set; `None` when there is no such field.
    pub open spec fn first_conflict(&self) -> Option<Field> {
        if conflicting(self.hidden, self.no_hidden) {
            Some(Field::IgnoreHidden)
        } else if conflicting(self.no_ignore, self.ignore) {
            Some(Field::IgnoreFiles)
        } else if conflicting(self.no_ignore_dot, self.ignore_dot) {
            Some(Field::IgnoreDot)
        } else if conflicting(self.no_ignore_vcs, self.ignore_vcs) {
            Some(Field::IgnoreVcs)
        } else if conflicting(self.no_ignore_global, self.ignore_global) {
            Some(Field::IgnoreGlobal)
        } else if conflicting(self.no_ignore_parent, self.ignore_parent) {
            Some(Field::IgnoreParent)
        } else {
            None
        }
    }

    /// Names the first field whose pair has both flags set. The arguments are
    /// consistent exactly when there is none.
    pub fn conflict(&self) -> (field: Option<Field>)
        ensures
            field == self.first_conflict(),
            field is None <==> self.consistent(),
    {
        if is_conflicting(self.hidden, self.no_hidden) {
            Some(Field::IgnoreHidden)
        } else if is_conflicting(self.no_ignore, self.ignore) {
            Some(Field::IgnoreFiles)
        } else if is_conflicting(self.no_ignore_dot, self.ignore_dot) {
            Some(Field::IgnoreDot)
        } else if is_conflicting(self.no_ignore_vcs, self.ignore_vcs) {
            Some(Field::IgnoreVcs)
        } else if is_conflicting(self.no_ignore_global, self.ignore_global) {
            Some(Field::IgnoreGlobal)
        } else if is_conflicting(self.no_ignore_parent, self.ignore_parent) {
            Some(Field::IgnoreParent)
        } else {
            None
        }
    }
}

impl Default for WalkArgs {
    /// The arguments of a command line that gives no traversal flag.
    fn default() -> (args: WalkArgs)
        ensures
            args == WalkArgs::none(),
    {
        WalkArgs {
            hidden: false,
            no_hidden: false,
            no_ignore: false,
            ignore: false,
            no_ignore_dot: false,
            ignore_dot: false,
            no_ignore_global: false,
            ignore_global: false,
            no_ignore_parent: false,
            ignore_parent: false,
            no_ignore_vcs: false,
            ignore_vcs: false,
        }
    }
}

impl WalkSource for WalkArgs {
    /// No traversal pair has both flags set.
    open spec fn consistent(&self) -> bool {
        &&& !conflicting(self.hidden, self.no_hidden)
        &&& !conflicting(self.no_ignore, self.ignore)
        &&& !conflicting(self.no_ignore_dot, self.ignore_dot)
        &&& !conflicting(self.no_ignore_vcs, self.ignore_vcs)
        &&& !conflicting(self.no_ignore_global, self.ignore_global)
        &&& !conflicting(self.no_ignore_parent, self.ignore_parent)
    }

    open spec fn as_walk(&self) -> Walk {
        Walk {
            ignore_hidden: tri_state(self.hidden, self.no_hidden, Field::IgnoreHidden.polarity()),
            ignore_files: tri_state(self.no_ignore, self.ignore, Field::IgnoreFiles.polarity()),
            ignore_dot: tri_state(
                self.no_ignore_dot,
                self.ignore_dot,
                Field::IgnoreDot.polarity(),
            ),
            ignore_vcs: tri_state(
                self.no_ignore_vcs,
                self.ignore_vcs,
                Field::IgnoreVcs.polarity(),
            ),
            ignore_global: tri_state(
                self.no_ignore_global,
                self.ignore_global,
                Field::IgnoreGlobal.polarity(),
            ),
            ignore_parent: tri_state(
                self.no_ignore_parent,
                self.ignore_parent,
                Field::IgnoreParent.polarity(),
            ),
        }
    }

    fn ignore_hidden(&self) -> (value: Option<bool>) {
        resolve(self.hidden, self.no_hidden, Field::IgnoreHidden.polarity())
    }

    fn ignore_files(&self) -> (value: Option<bool>) {
        resolve(self.no_ignore, self.ignore, Field::IgnoreFiles.polarity())
    }

    fn ignore_dot(&self) -> (value: Option<bool>) {
        resolve(self.no_ignore_dot, self.ignore_dot, Field::IgnoreDot.polarity())
    }

    fn ignore_vcs(&self) -> (value: Option<bool>) {
        resolve(self.no_ignore_vcs, self.ignore_vcs, Field::IgnoreVcs.polarity())
    }

    fn ignore_global(&self) -> (value: Option<bool>) {
        resolve(self.no_ignore_global, self.ignore_global, Field::IgnoreGlobal.polarity())
    }

    fn ignore_parent(&self) -> (value: Option<bool>) {
        resolve(self.no_ignore_parent, self.ignore_parent, Field::IgnoreParent.polarity())
    }
}

} // verus!
