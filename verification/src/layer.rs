//! Plain layers of optional settings, and the settings they resolve to.
//!
//! A layer says, for each field of its domain, either a value or nothing. It
//! is what every source looks like to the merge, whatever the source is made
//! of; it is what a configuration file holds once it has been read; and it is
//! what a merge leaves behind, with `None` marking the fields that still
//! inherit from below.

use crate::locale::Locale;
use crate::source::{ConfigSource, DictSource, EngineSource, WalkSource};
use vstd::prelude::*;

verus! {

/// The value of the higher-priority side if it has one, else that of the lower.
pub open spec fn prefer<T>(high: Option<T>, low: Option<T>) -> Option<T> {
    if high is Some {
        high
    } else {
        low
    }
}

/// The value that was set, or the fallback where nothing was.
pub open spec fn value_or(value: Option<bool>, fallback: bool) -> bool {
    match value {
        Some(v) => v,
        None => fallback,
    }
}

/// The dictionary domain: which locale the dictionary uses.
#[derive(Debug, Clone, Copy, PartialEq, Eq, Structural)]
pub struct Dict {
    pub locale: Option<Locale>,
}

/// The engine domain: what is scanned and checked, and with which dictionary.
#[derive(Debug, Clone, Copy, PartialEq, Eq, Structural)]
pub struct Engine {
    pub binary: Option<bool>,
    pub check_filename: Option<bool>,
    pub check_file: Option<bool>,
    pub dict: Dict,
}

/// The traversal domain: which entries the walk over the file tree skips.
#[derive(Debug, Clone, Copy, PartialEq, Eq, Structural)]
pub struct Walk {
    pub ignore_hidden: Option<bool>,
    pub ignore_files: Option<bool>,
    pub ignore_dot: Option<bool>,
    pub ignore_vcs: Option<bool>,
    pub ignore_global: Option<bool>,
    pub ignore_parent: Option<bool>,
}

/// The top-level configuration domain.
#[derive(Debug, Clone, Copy, PartialEq, Eq, Structural)]
pub struct Config {
    pub walk: Walk,
}

/// Fully resolved engine settings. The locale may stay unset: the dictionary
/// then picks its own.
#[derive(Debug, Clone, Copy, PartialEq, Eq, Structural)]
pub struct EngineSettings {
    pub binary: bool,
    pub check_filename: bool,
    pub check_file: bool,
    pub locale: Option<Locale>,
}

/// Fully resolved traversal settings.
#[derive(Debug, Clone, Copy, PartialEq, Eq, Structural)]
pub struct WalkSettings {
    pub ignore_hidden: bool,
    pub ignore_files: bool,
    pub ignore_dot: bool,
    pub ignore_vcs: bool,
    pub ignore_global: bool,
    pub ignore_parent: bool,
}

impl EngineSettings {
    /// The built-in engine settings: binary files are left alone, file names
    /// and file contents are checked, no locale is imposed.
    pub open spec fn builtin() -> EngineSettings {
        EngineSettings { binary: false, check_filename: true, check_file: true, locale: None }
    }
}

impl WalkSettings {
    /// The built-in traversal settings: hidden entries are skipped and every
    /// kind of ignore file is respected.
    pub open spec fn builtin() -> WalkSettings {
        WalkSettings {
            ignore_hidden: true,
            ignore_files: true,
            ignore_dot: true,
            ignore_vcs: true,
            ignore_global: true,
            ignore_parent: true,
        }
    }
}

impl Default for EngineSettings {
    /// The built-in engine settings.
    fn default() -> (settings: EngineSettings)
        ensures
            settings == EngineSettings::builtin(),
    {
        EngineSettings { binary: false, check_filename: true, check_file: true, locale: None }
    }
}

impl Default for WalkSettings {
    /// The built-in traversal settings.
    fn default() -> (settings: WalkSettings)
        ensures
            settings == WalkSettings::builtin(),
    {
        WalkSettings {
            ignore_hidden: true,
            ignore_files: true,
            ignore_dot: true,
            ignore_vcs: true,
            ignore_global: true,
            ignore_parent: true,
        }
    }
}

impl Dict {
    /// The layer in which nothing is set.
    pub open spec fn spec_unset() -> Dict {
        Dict { locale: None }
    }

    /// This layer over a lower one: each field takes the value set here, or
    /// else the one set below.
    pub open spec fn over(self, lower: Dict) -> Dict {
        Dict { locale: prefer(self.locale, lower.locale) }
    }

    /// The layer in which nothing is set.
    #[verifier::when_used_as_spec(spec_unset)]
    pub fn unset() -> (dict: Dict)
        ensures
            dict == Dict::unset(),
    {
        Dict { locale: None }
    }

    /// Fills every field that is still unset from a lower-priority source.
    pub fn inherit<S: DictSource + ?Sized>(&mut self, lower: &S)
        ensures
            *final(self) == old(self).over(lower.as_dict()),
    {
        if self.locale.is_none() {
            self.locale = lower.locale();
        }
    }
}

impl Engine {
    /// The layer in which nothing is set.
    pub open spec fn spec_unset() -> Engine {
        Engine { binary: None, check_filename: None, check_file: None, dict: Dict::unset() }
    }

    /// The built-in engine settings as a layer.
    pub open spec fn spec_defaults() -> Engine {
        Engine {
            binary: Some(EngineSettings::builtin().binary),
            check_filename: Some(EngineSettings::builtin().check_filename),
            check_file: Some(EngineSettings::builtin().check_file),
            dict: Dict { locale: EngineSettings::builtin().locale },
        }
    }

    /// This layer over a lower one: each field takes the value set here, or
    /// else the one set below.
    pub open spec fn over(self, lower: Engine) -> Engine {
        Engine {
            binary: prefer(self.binary, lower.binary),
            check_filename: prefer(self.check_filename, lower.check_filename),
            check_file: prefer(self.check_file, lower.check_file),
            dict: self.dict.over(lower.dict),
        }
    }

    /// The settings this layer resolves to: what is set stays, what is not
    /// takes its built-in value.
    pub open spec fn settled(self) -> EngineSettings {
        EngineSettings {
            binary: value_or(self.binary, EngineSettings::builtin().binary),
            check_filename: value_or(self.check_filename, EngineSettings::builtin().check_filename),
            check_file: value_or(self.check_file, EngineSettings::builtin().check_file),
            locale: prefer(self.dict.locale, EngineSettings::builtin().locale),
        }
    }

    /// The layer in which nothing is set.
    #[verifier::when_used_as_spec(spec_unset)]
    pub fn unset() -> (engine: Engine)
        ensures
            engine == Engine::unset(),
    {
        Engine { binary: None, check_filename: None, check_file: None, dict: Dict::unset() }
    }

    /// The built-in engine settings as a layer, to stand last in a list of
    /// sources.
    #[verifier::when_used_as_spec(spec_defaults)]
    pub fn defaults() -> (engine: Engine)
        ensures
            engine == Engine::defaults(),
    {
        Engine {
            binary: Some(false),
            check_filename: Some(true),
            check_file: Some(true),
            dict: Dict { locale: None },
        }
    }

    /// Fills every field that is still unset from a lower-priority source.
    pub fn inherit<S: EngineSource + ?Sized>(&mut self, lower: &S)
        requires
            lower.consistent(),
        ensures
            *final(self) == old(self).over(lower.as_engine()),
    {
        if self.binary.is_none() {
            self.binary = lower.binary();
        }
        if self.check_filename.is_none() {
            self.check_filename = lower.check_filename();
        }
        if self.check_file.is_none() {
            self.check_file = lower.check_file();
        }
        if let Some(dict) = lower.dict() {
            self.dict.inherit(dict);
        }
    }

    /// Resolves this layer into settings, with the built-in value for every
    /// field that is still unset.
    pub fn settle(&self) -> (settings: EngineSettings)
        ensures
            settings == self.settled(),
    {
        EngineSettings {
            binary: match self.binary {
                Some(v) => v,
                None => false,
            },
            check_filename: match self.check_filename {
                Some(v) => v,
                None => true,
            },
            check_file: match self.check_file {
                Some(v) => v,
                None => true,
            },
            locale: self.dict.locale,
        }
    }
}

impl Walk {
    /// The layer in which nothing is set.
    pub open spec fn spec_unset() -> Walk {
        Walk {
            ignore_hidden: None,
            ignore_files: None,
            ignore_dot: None,
            ignore_vcs: None,
            ignore_global: None,
            ignore_parent: None,
        }
    }

    /// The built-in traversal settings as a layer.
    pub open spec fn spec_defaults() -> Walk {
        Walk {
            ignore_hidden: Some(WalkSettings::builtin().ignore_hidden),
            ignore_files: Some(WalkSettings::builtin().ignore_files),
            ignore_dot: Some(WalkSettings::builtin().ignore_dot),
            ignore_vcs: Some(WalkSettings::builtin().ignore_vcs),
            ignore_global: Some(WalkSettings::builtin().ignore_global),
            ignore_parent: Some(WalkSettings::builtin().ignore_parent),
        }
    }

    /// This layer over a lower one: each field takes the value set here, or
    /// else the one set below.
    pub open spec fn over(self, lower: Walk) -> Walk {
        Walk {
            ignore_hidden: prefer(self.ignore_hidden, lower.ignore_hidden),
            ignore_files: prefer(self.ignore_files, lower.ignore_files),
            ignore_dot: prefer(self.ignore_dot, lower.ignore_dot),
            ignore_vcs: prefer(self.ignore_vcs, lower.ignore_vcs),
            ignore_global: prefer(self.ignore_global, lower.ignore_global),
            ignore_parent: prefer(self.ignore_parent, lower.ignore_parent),
        }
    }

    /// The settings this layer resolves to: what is set stays, what is not
    /// takes its built-in value.
    pub open spec fn settled(self) -> WalkSettings {
        WalkSettings {
            ignore_hidden: value_or(self.ignore_hidden, WalkSettings::builtin().ignore_hidden),
            ignore_files: value_or(self.ignore_files, WalkSettings::builtin().ignore_files),
            ignore_dot: value_or(self.ignore_dot, WalkSettings::builtin().ignore_dot),
            ignore_vcs: value_or(self.ignore_vcs, WalkSettings::builtin().ignore_vcs),
            ignore_global: value_or(self.ignore_global, WalkSettings::builtin().ignore_global),
            ignore_parent: value_or(self.ignore_parent, WalkSettings::builtin().ignore_parent),
        }
    }

    /// The layer in which nothing is set.
    #[verifier::when_used_as_spec(spec_unset)]
    pub fn unset() -> (walk: Walk)
        ensures
            walk == Walk::unset(),
    {
        Walk {
            ignore_hidden: None,
            ignore_files: None,
            ignore_dot: None,
            ignore_vcs: None,
            ignore_global: None,
            ignore_parent: None,
        }
    }

    /// The built-in traversal settings as a layer, to stand last in a list of
    /// sources.
    #[verifier::when_used_as_spec(spec_defaults)]
    pub fn defaults() -> (walk: Walk)
        ensures
            walk == Walk::defaults(),
    {
        Walk {
            ignore_hidden: Some(true),
            ignore_files: Some(true),
            ignore_dot: Some(true),
            ignore_vcs: Some(true),
            ignore_global: Some(true),
            ignore_parent: Some(true),
        }
    }

    /// Fills every field that is still unset from a lower-priority source.
    pub fn inherit<S: WalkSource + ?Sized>(&mut self, lower: &S)
        requires
            lower.consistent(),
        ensures
            *final(self) == old(self).over(lower.as_walk()),
    {
        if self.ignore_hidden.is_none() {
            self.ignore_hidden = lower.ignore_hidden();
        }
        if self.ignore_files.is_none() {
            self.ignore_files = lower.ignore_files();
        }
        if self.ignore_dot.is_none() {
            self.ignore_dot = lower.ignore_dot();
        }
        if self.ignore_vcs.is_none() {
            self.ignore_vcs = lower.ignore_vcs();
        }
        if self.ignore_global.is_none() {
            self.ignore_global = lower.ignore_global();
        }
        if self.ignore_parent.is_none() {
            self.ignore_parent = lower.ignore_parent();
        }
    }

    /// Resolves this layer into settings, with the built-in value for every
    /// field that is still unset.
    pub fn settle(&self) -> (settings: WalkSettings)
        ensures
            settings == self.settled(),
    {
        WalkSettings {
            ignore_hidden: match self.ignore_hidden {
                Some(v) => v,
                None => true,
            },
            ignore_files: match self.ignore_files {
                Some(v) => v,
                None => true,
            },
            ignore_dot: match self.ignore_dot {
                Some(v) => v,
                None => true,
            },
            ignore_vcs: match self.ignore_vcs {
                Some(v) => v,
                None => true,
            },
            ignore_global: match self.ignore_global {
                Some(v) => v,
                None => true,
            },
            ignore_parent: match self.ignore_parent {
                Some(v) => v,
                None => true,
            },
        }
    }
}

impl Config {
    /// The layer in which nothing is set.
    pub open spec fn spec_unset() -> Config {
        Config { walk: Walk::unset() }
    }

    /// The built-in settings as a layer.
    pub open spec fn spec_defaults() -> Config {
        Config { walk: Walk::defaults() }
    }

    /// This layer over a lower one: each field takes the value set here, or
    /// else the one set below.
    pub open spec fn over(self, lower: Config) -> Config {
        Config { walk: self.walk.over(lower.walk) }
    }

    /// The layer in which nothing is set.
    #[verifier::when_used_as_spec(spec_unset)]
    pub fn unset() -> (config: Config)
        ensures
            config == Config::unset(),
    {
        Config { walk: Walk::unset() }
    }

    /// The built-in settings as a layer, to stand last in a list of sources.
    #[verifier::when_used_as_spec(spec_defaults)]
    pub fn defaults() -> (config: Config)
        ensures
            config == Config::defaults(),
    {
        Config { walk: Walk::defaults() }
    }

    /// Fills every field that is still unset from a lower-priority source.
    pub fn inherit<S: ConfigSource + ?Sized>(&mut self, lower: &S)
        requires
            lower.consistent(),
        ensures
            *final(self) == old(self).over(lower.as_config()),
    {
        if let Some(walk) = lower.walk() {
            self.walk.inherit(walk);
        }
    }
}

impl DictSource for Dict {
    open spec fn as_dict(&self) -> Dict {
        *self
    }

    fn locale(&self) -> (locale: Option<Locale>) {
        self.locale
    }
}

impl EngineSource for Engine {
    open spec fn consistent(&self) -> bool {
        true
    }

    open spec fn as_engine(&self) -> Engine {
        *self
    }

    fn binary(&self) -> (value: Option<bool>) {
        self.binary
    }

    fn check_filename(&self) -> (value: Option<bool>) {
        self.check_filename
    }

    fn check_file(&self) -> (value: Option<bool>) {
        self.check_file
    }

    fn dict(&self) -> (dict: Option<&dyn DictSource>)
        ensures
            dict is Some,
    {
        Some(&self.dict)
    }
}

impl WalkSource for Walk {
    open spec fn consistent(&self) -> bool {
        true
    }

    open spec fn as_walk(&self) -> Walk {
        *self
    }

    fn ignore_hidden(&self) -> (value: Option<bool>) {
        self.ignore_hidden
    }

    fn ignore_files(&self) -> (value: Option<bool>) {
        self.ignore_files
    }

    fn ignore_dot(&self) -> (value: Option<bool>) {
        self.ignore_dot
    }

    fn ignore_vcs(&self) -> (value: Option<bool>) {
        self.ignore_vcs
    }

    fn ignore_global(&self) -> (value: Option<bool>) {
        self.ignore_global
    }

    fn ignore_parent(&self) -> (value: Option<bool>) {
        self.ignore_parent
    }
}

impl ConfigSource for Config {
    open spec fn consistent(&self) -> bool {
        true
    }

    open spec fn as_config(&self) -> Config {
        *self
    }

    fn walk(&self) -> (walk: Option<&dyn WalkSource>)
        ensures
            walk is Some,
    {
        Some(&self.walk)
    }
}

} // verus!
