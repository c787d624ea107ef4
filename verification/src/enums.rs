//! The enumerated-type rule set: a name and a list of variant-and-value
//! pairs produce an enumeration that opens with a default `Invalid` case,
//! each listed variant carrying its own numeric code.

use vstd::prelude::*;

verus! {

/// One expansion of the rule set: the listed variants after the default
/// `Invalid` case.
#[derive(Eq, PartialEq, Clone, Debug)]
pub enum Verb {
    Invalid,
    Get,
    Post,
}

/// The numeric code attached to each variant; the default case carries
/// code zero.
pub open spec fn verb_code(v: Verb) -> int {
    match v {
        Verb::Invalid => 0,
        Verb::Get => 1,
        Verb::Post => 2,
    }
}

impl Verb {
    /// The numeric code of this variant.
    pub fn code(&self) -> (r: u32)
        ensures
            r == verb_code(*self),
    {
        match self {
            Verb::Invalid => 0,
            Verb::Get => 1,
            Verb::Post => 2,
        }
    }
}

impl Default for Verb {
    /// The default value is the `Invalid` case.
    fn default() -> (r: Verb)
        ensures
            r == Verb::Invalid,
    {
        Verb::Invalid
    }
}

} // verus!
