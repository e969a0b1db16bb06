//! Paired command-line flags and the tri-state value they encode.
//!
//! A setting that can be switched on, switched off, or left alone is captured
//! as two booleans, a *positive* and a *negative* flag. Setting one on the
//! command line clears the other, so at most one of the two is ever `true`.
//! The resolver turns such a pair into `Some(value)` or `None`; how the flags
//! map onto the value of the field is the field's [`Polarity`].

use vstd::pervasive::arbitrary;
use vstd::prelude::*;

verus! {

/// How the flags of a paired group map onto the field they control.
#[derive(Clone, Copy, Debug, PartialEq, Eq, Structural)]
pub enum Polarity {
    /// The positive flag turns the field on, the negative flag turns it off.
    Direct,
    /// The positive flag turns the field off, the negative flag turns it on.
    Inverted,
}

impl Polarity {
    /// The value the field takes when the positive flag is the one that was
    /// given.
    pub open spec fn when_positive(self) -> bool {
        self is Direct
    }

    /// The value the field takes when the negative flag is the one that was
    /// given: always the opposite of [`Polarity::when_positive`].
    pub open spec fn when_negative(self) -> bool {
        self is Inverted
    }
}

/// The one state a paired group must never be in: both flags set.
pub open spec fn conflicting(positive: bool, negative: bool) -> bool {
    positive && negative
}

/// The tri-state value of a paired group.
///
/// | positive | negative | value                            |
/// |----------|----------|----------------------------------|
/// | `true`   | `false`  | `Some(polarity.when_positive())` |
/// | `false`  | `true`   | `Some(polarity.when_negative())` |
/// | `false`  | `false`  | `None`                           |
///
/// A conflicting pair has no value; nothing is said about it here.
pub open spec fn tri_state(positive: bool, negative: bool, polarity: Polarity) -> Option<bool>
    recommends
        !conflicting(positive, negative),
{
    match (positive, negative) {
        (true, false) => Some(polarity.when_positive()),
        (false, true) => Some(polarity.when_negative()),
        (false, false) => None,
        (true, true) => arbitrary(),
    }
}

/// Tells whether both flags of a pair are set.
pub fn is_conflicting(positive: bool, negative: bool) -> (conflict: bool)
    ensures
        conflict == conflicting(positive, negative),
{
    positive && negative
}

/// Resolves a paired flag group into its tri-state value.
///
/// The pair must not be conflicting: flag capture guarantees that, and a
/// caller that cannot rule it out tests with [`is_conflicting`] first.
pub fn resolve(positive: bool, negative: bool, polarity: Polarity) -> (value: Option<bool>)
    requires
        !conflicting(positive, negative),
    ensures
        value == tri_state(positive, negative, polarity),
{
    if positive {
        match polarity {
            Polarity::Direct => Some(true),
            Polarity::Inverted => Some(false),
        }
    } else if negative {
        match polarity {
            Polarity::Direct => Some(false),
            Polarity::Inverted => Some(true),
        }
    } else {
        None
    }
}

} // verus!
