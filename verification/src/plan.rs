//! Which sources take part in a merge, and in which order.
//!
//! The command line comes first and the built-in defaults come last. Between
//! them stands the configuration file named on the command line if there is
//! one, or else the configuration files discovered around the scanned paths,
//! unless discovery is switched off by asking for isolation.

use vstd::prelude::*;

verus! {

/// Where a source of settings comes from.
#[derive(Debug, Clone, Copy, PartialEq, Eq, Structural)]
pub enum Origin {
    /// The overrides given on the command line.
    CommandLine,
    /// The configuration file named on the command line.
    CustomFile,
    /// The configuration files found by discovery.
    DiscoveredFiles,
    /// The built-in defaults.
    Defaults,
}

/// The origins that take part in a merge, highest priority first.
pub open spec fn priority(custom_config: bool, isolated: bool) -> Seq<Origin> {
    if custom_config {
        seq![Origin::CommandLine, Origin::CustomFile, Origin::Defaults]
    } else if isolated {
        seq![Origin::CommandLine, Origin::Defaults]
    } else {
        seq![Origin::CommandLine, Origin::DiscoveredFiles, Origin::Defaults]
    }
}

/// Lists the origins that take part in a merge, highest priority first.
///
/// `custom_config` says whether a configuration file was named on the command
/// line, `isolated` whether isolation was asked for. Under isolation the
/// discovered files are left out whatever lies on disk.
pub fn priority_list(custom_config: bool, isolated: bool) -> (origins: Vec<Origin>)
    ensures
        origins@ == priority(custom_config, isolated),
        isolated ==> !origins@.contains(Origin::DiscoveredFiles),
{
    let mut origins: Vec<Origin> = Vec::new();
    origins.push(Origin::CommandLine);
    if custom_config {
        origins.push(Origin::CustomFile);
    } else if !isolated {
        origins.push(Origin::DiscoveredFiles);
    }
    origins.push(Origin::Defaults);
    assert(origins@ =~= priority(custom_config, isolated));
    origins
}

} // verus!
