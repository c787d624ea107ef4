//! The fixed-shape rule set: three literal token shapes, each mapped to its
//! own fixed string constant.

use vstd::prelude::*;

verus! {

/// The three token shapes the rule set accepts: a fixed sentence of words,
/// a fixed numeric literal, and a fixed run of punctuation.
#[derive(Clone, Copy, PartialEq, Eq, Debug)]
pub enum TokenShape {
    Words,
    Number,
    Punctuation,
}

/// The string constant produced for each shape.
pub open spec fn shape_text(p: TokenShape) -> Seq<char> {
    match p {
        TokenShape::Words => "Text"@,
        TokenShape::Number => "Numeric"@,
        TokenShape::Punctuation => "Alpha"@,
    }
}

/// Expansion of the fixed-shape rule set: the string constant that belongs
/// to the matched shape.
pub fn strange_patterns(p: TokenShape) -> (r: &'static str)
    ensures
        r@ == shape_text(p),
{
    match p {
        TokenShape::Words => "Text",
        TokenShape::Number => "Numeric",
        TokenShape::Punctuation => "Alpha",
    }
}

/// The three shapes produce three distinct strings: no two shapes share a
/// constant.
pub proof fn lemma_shape_texts_distinct(a: TokenShape, b: TokenShape)
    ensures
        a != b ==> shape_text(a) != shape_text(b),
{
    reveal_strlit("Text");
    reveal_strlit("Numeric");
    reveal_strlit("Alpha");
    assert(shape_text(TokenShape::Words).len() == 4);
    assert(shape_text(TokenShape::Number).len() == 7);
    assert(shape_text(TokenShape::Punctuation).len() == 5);
}

} // verus!
