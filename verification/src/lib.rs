//! Hand-written expansions of a small collection of code-generation rule
//! sets.  Each rule set turns a fixed invocation shape into a fixed piece of
//! code: an arithmetic expression, a string constant, a handler registration,
//! a counted repetition, a trait-and-impl pair, a deduplicated collection, or
//! a formatted output line.  Every module holds the code one rule set
//! produces, with contracts that pin the produced value down.

pub mod arith;
pub mod enums;
pub mod mocks;
pub mod patterns;
pub mod printer;
pub mod repeat;
pub mod sets;
pub mod web;

pub use web::Response;
pub use web::register_handler;
