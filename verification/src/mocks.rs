//! The mocking rule set.  Its first arm produces a trait with one method
//! together with an implementation of it for a chosen type, the method
//! returning the value of a fixed block.  Its second arm produces a plain
//! aggregate type from a list of field names and types.

use vstd::prelude::*;

verus! {

/// Trait produced for `String`: asking a string to tell always yields the
/// fixed greeting `"Hi!"`.
pub trait Tell {
    fn tell(&self) -> (r: &'static str)
        ensures
            r@ == "Hi!"@,
    ;
}

impl Tell for String {
    fn tell(&self) -> (r: &'static str) {
        "Hi!"
    }
}

/// Trait produced for `u32`: asking a number to speak always yields the
/// fixed string `"Number"`.
pub trait Speak {
    fn speak(&self) -> (r: &'static str)
        ensures
            r@ == "Number"@,
    ;
}

impl Speak for u32 {
    fn speak(&self) -> (r: &'static str) {
        "Number"
    }
}

/// Expansion of the aggregate arm: a struct whose fields come straight from
/// the listed name-and-type pairs.
#[derive(PartialEq, Clone, Debug)]
pub struct HelloWorld {
    pub greeting: String,
    pub when: u64,
}

impl HelloWorld {
    /// The constructor the field-list expansion produces: one parameter per
    /// listed field, and each field of the result is exactly the argument
    /// given for it.
    pub fn new(greeting: String, when: u64) -> (r: HelloWorld)
        ensures
            r.greeting == greeting,
            r.when == when,
    {
        HelloWorld {
            greeting,
            when,
        }
    }
}

} // verus!
