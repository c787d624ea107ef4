//! The arithmetic rule sets: a zero-argument constant expression, a
//! three-way keyword dispatch to an arithmetic expression, and an equality
//! check between a value and the value of a block.

use vstd::prelude::*;

verus! {

/// The three operator keywords the keyword-dispatch rule set accepts.
#[derive(Clone, Copy, PartialEq, Eq, Debug)]
pub enum ArithKeyword {
    Plus,
    Minus,
    Mult,
}

/// The value of the expression produced for each keyword: `1 + 1`, `1 - 1`
/// or `1 * 1`.
pub open spec fn one_and_one_value(k: ArithKeyword) -> int {
    match k {
        ArithKeyword::Plus => 2,
        ArithKeyword::Minus => 0,
        ArithKeyword::Mult => 1,
    }
}

/// Expansion of the zero-argument rule set: the fixed expression `1 + 1`.
pub fn one_plus_one() -> (r: u32)
    ensures
        r == 2,
{
    1 + 1
}

/// Expansion of the keyword-dispatch rule set: one arithmetic expression
/// per keyword.
pub fn one_and_one(k: ArithKeyword) -> (r: u32)
    ensures
        r == one_and_one_value(k),
{
    match k {
        ArithKeyword::Plus => 1 + 1,
        ArithKeyword::Minus => 1 - 1,
        ArithKeyword::Mult => 1 * 1,
    }
}

/// Expansion of the equality-check rule set: compares the given value with
/// the value the block produced.
pub fn compare(x: i64, y: i64) -> (r: bool)
    ensures
        r == (x == y),
{
    x == y
}

} // verus!
