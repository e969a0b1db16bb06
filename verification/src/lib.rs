//! Layered resolution of scanner settings.
//!
//! Settings come from several sources: overrides given on the command line,
//! configuration files, and built-in defaults. Every source may leave any
//! field unset. The sources are listed in their order of priority and merged
//! field by field: the first source that sets a field decides it, and a field
//! that no source sets takes its built-in value.
//!
//! - [`flag`] resolves the paired flags of the command line into tri-state
//!   values.
//! - [`source`] holds the capability interfaces through which a source is
//!   read, one per settings domain.
//! - [`args`] holds the command line as a source.
//! - [`layer`] holds plain layers of optional settings, the built-in defaults
//!   and the fully resolved settings.
//! - [`merge`] merges lists of sources and resolves the effective settings.
//! - [`plan`] says which sources take part in a merge, and in which order.
//! - [`format`] and [`locale`] hold the two closed selectors, with [`text`]
//!   comparing their names.
//! - [`laws`] states what holds of all of this for every input.

pub mod args;
pub mod flag;
pub mod format;
pub mod laws;
pub mod layer;
pub mod locale;
pub mod merge;
pub mod plan;
pub mod source;
pub mod text;
