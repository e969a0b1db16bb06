//! The capability interfaces through which the merge reads a source.
//!
//! Each settings domain has one narrow interface whose accessors return
//! `None` where the source has no opinion. Parsed command-line arguments, a
//! configuration file and the built-in defaults all sit behind these
//! interfaces, so the merge can layer any number of them without knowing what
//! any of them is.
//!
//! What a source says is modelled by a plain layer of the domain
//! ([`Dict`], [`Engine`], [`Walk`], [`Config`]); every accessor returns the
//! corresponding field of that layer. A nested domain that is absent counts as
//! a layer in which nothing is set.

use crate::layer::{Config, Dict, Engine, Walk};
use crate::locale::Locale;
use vstd::prelude::*;

verus! {

/// A source for the dictionary domain.
pub trait DictSource {
    /// What this source says about the dictionary domain.
    spec fn as_dict(&self) -> Dict;

    /// The dictionary locale, if the source names one.
    fn locale(&self) -> (locale: Option<Locale>)
        ensures
            locale == self.as_dict().locale,
    ;
}

/// A source for the engine domain.
pub trait EngineSource {
    /// Whether the source is in a state that its accessors can resolve. A
    /// source built from paired flags is not while some pair has both flags
    /// set.
    spec fn consistent(&self) -> bool;

    /// What this source says about the engine domain, dictionary included.
    spec fn as_engine(&self) -> Engine;

    /// Whether binary files are scanned.
    fn binary(&self) -> (value: Option<bool>)
        requires
            self.consistent(),
        ensures
            value == self.as_engine().binary,
    ;

    /// Whether file names are checked.
    fn check_filename(&self) -> (value: Option<bool>)
        requires
            self.consistent(),
        ensures
            value == self.as_engine().check_filename,
    ;

    /// Whether file contents are checked.
    fn check_file(&self) -> (value: Option<bool>)
        requires
            self.consistent(),
        ensures
            value == self.as_engine().check_file,
    ;

    /// The nested dictionary source, if there is one.
    fn dict(&self) -> (dict: Option<&dyn DictSource>)
        ensures
            dict matches Some(d) ==> d.as_dict() == self.as_engine().dict,
            dict is None ==> self.as_engine().dict == Dict::unset(),
    ;
}

/// A source for the traversal domain.
pub trait WalkSource {
    /// Whether the source is in a state that its accessors can resolve. A
    /// source built from paired flags is not while some pair has both flags
    /// set.
    spec fn consistent(&self) -> bool;

    /// What this source says about the traversal domain.
    spec fn as_walk(&self) -> Walk;

    /// Whether hidden files and directories are skipped.
    fn ignore_hidden(&self) -> (value: Option<bool>)
        requires
            self.consistent(),
        ensures
            value == self.as_walk().ignore_hidden,
    ;

    /// Whether ignore files are respected at all.
    fn ignore_files(&self) -> (value: Option<bool>)
        requires
            self.consistent(),
        ensures
            value == self.as_walk().ignore_files,
    ;

    /// Whether `.ignore` files are respected.
    fn ignore_dot(&self) -> (value: Option<bool>)
        requires
            self.consistent(),
        ensures
            value == self.as_walk().ignore_dot,
    ;

    /// Whether the ignore files of version control are respected.
    fn ignore_vcs(&self) -> (value: Option<bool>)
        requires
            self.consistent(),
        ensures
            value == self.as_walk().ignore_vcs,
    ;

    /// Whether global ignore files are respected.
    fn ignore_global(&self) -> (value: Option<bool>)
        requires
            self.consistent(),
        ensures
            value == self.as_walk().ignore_global,
    ;

    /// Whether ignore files in parent directories are respected.
    fn ignore_parent(&self) -> (value: Option<bool>)
        requires
            self.consistent(),
        ensures
            value == self.as_walk().ignore_parent,
    ;
}

/// A source for the top-level configuration domain.
pub trait ConfigSource {
    /// Whether the source is in a state that the accessors of its nested
    /// sources can resolve.
    spec fn consistent(&self) -> bool;

    /// What this source says about the top-level domain, traversal included.
    spec fn as_config(&self) -> Config;

    /// The nested traversal source, if there is one.
    fn walk(&self) -> (walk: Option<&dyn WalkSource>)
        ensures
            walk matches Some(w) ==> w.as_walk() == self.as_config().walk && (self.consistent()
                ==> w.consistent()),
            walk is None ==> self.as_config().walk == Walk::unset(),
    ;
}

} // verus!
