//! Laws that tie the identifier's operations together, stated over the models
//! their contracts use: `construct` for creation, the payload view for display
//! and equality, and `text_hash` for hashing.
use vstd::prelude::*;

use crate::order_list_id::{construct, text_hash, OrderListId};
use crate::validation::{all_white_space, is_valid_text, ValidationError};

verus! {

/// A non-empty text that is not all white space is accepted, and the identifier
/// made from it renders as exactly that text.
pub proof fn lemma_construct_then_display(s: Seq<char>)
    requires
        s.len() > 0,
        !all_white_space(s),
    ensures
        construct(s) == Ok::<Seq<char>, ValidationError>(s),
{
}

/// An empty or all-white-space text is refused: as empty when it has no
/// characters, as blank otherwise.
pub proof fn lemma_blank_text_refused(s: Seq<char>)
    requires
        all_white_space(s),
    ensures
        construct(s) is Err,
        s.len() == 0 ==> construct(s) == Err::<Seq<char>, ValidationError>(ValidationError::Empty),
        s.len() > 0 ==> construct(s) == Err::<Seq<char>, ValidationError>(
            ValidationError::Whitespace,
        ),
{
}

/// Two identifiers made from the same valid text are equal and hash alike.
pub proof fn lemma_same_text_equal_and_hash_alike(s: Seq<char>, a: &OrderListId, b: &OrderListId)
    requires
        construct(s) == Ok::<Seq<char>, ValidationError>(a@),
        construct(s) == Ok::<Seq<char>, ValidationError>(b@),
    ensures
        is_valid_text(s),
        a@ == b@,
        text_hash(a@) == text_hash(b@),
{
}

/// Identifiers made from two different valid texts are not equal.
pub proof fn lemma_distinct_texts_unequal(
    s1: Seq<char>,
    s2: Seq<char>,
    a: &OrderListId,
    b: &OrderListId,
)
    requires
        s1 != s2,
        construct(s1) == Ok::<Seq<char>, ValidationError>(a@),
        construct(s2) == Ok::<Seq<char>, ValidationError>(b@),
    ensures
        a@ != b@,
{
}

} // verus!
