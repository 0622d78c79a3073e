use std::rc::Rc;
use vstd::prelude::*;

use crate::validation::{check_valid_string, is_valid_text, validate, ValidationError};

verus! {

/// The hash of a payload under std's `DefaultHasher` built by `DefaultHasher::new`.
pub uninterp spec fn text_hash(s: Seq<char>) -> u64;

/// What constructing an identifier from `s` gives: its payload, or the reason
/// `s` is refused.
pub open spec fn construct(s: Seq<char>) -> Result<Seq<char>, ValidationError> {
    match validate(s) {
        Ok(()) => Ok(s),
        Err(e) => Err(e),
    }
}

/// Relies on `Rc::clone`: it hands out another pointer to the same allocation,
/// so the new pointer reads the same value.
#[verifier::external_body]
fn share_payload(p: &Rc<String>) -> (r: Rc<String>)
    ensures
        r == *p,
{
    Rc::clone(p)
}

/// Relies on std's `DefaultHasher`: a hasher made by `DefaultHasher::new` always
/// starts from the same keys, so the hash depends on the text alone.
#[verifier::external_body]
fn hash_payload(s: &String) -> (r: u64)
    ensures
        r == text_hash(s@),
{
    let mut h = std::collections::hash_map::DefaultHasher::new();
    std::hash::Hash::hash(s, &mut h);
    std::hash::Hasher::finish(&h)
}

/// An identifier for an order list: an immutable, validated text payload.
///
/// Clones share the payload behind a reference count, so cloning is cheap and
/// the payload is released when the last clone is dropped. The count is not
/// atomic: an identifier and its clones stay on the thread that made them.
#[derive(Debug, Hash)]
pub struct OrderListId {
    value: Box<Rc<String>>,
}

impl View for OrderListId {
    type V = Seq<char>;

    closed spec fn view(&self) -> Seq<char> {
        self.value@
    }
}

impl OrderListId {
    /// The payload is never empty nor blank.
    #[verifier::type_invariant]
    spec fn payload_is_valid(self) -> bool {
        is_valid_text(self.value@)
    }

    /// Makes an identifier holding `s`, which must be a valid payload.
    pub fn new(s: &str) -> (r: Self)
        requires
            is_valid_text(s@),
        ensures
            r@ == s@,
    {
        OrderListId { value: Box::new(Rc::new(s.to_owned())) }
    }

    /// Makes an identifier holding `s`, or tells why `s` is refused.
    pub fn try_new(s: &str) -> (r: Result<Self, ValidationError>)
        ensures
            r is Ok <==> is_valid_text(s@),
            match r {
                Ok(id) => construct(s@) == Ok::<Seq<char>, ValidationError>(id@),
                Err(e) => construct(s@) == Err::<Seq<char>, ValidationError>(e),
            },
    {
        match check_valid_string(s) {
            Ok(()) => Ok(OrderListId::new(s)),
            Err(e) => Err(e),
        }
    }

    /// The payload, exactly as it was given.
    pub fn to_string(&self) -> (r: String)
        ensures
            r@ == self@,
    {
        (**self.value).clone()
    }

    /// A hash of the payload; equal identifiers hash alike.
    pub fn hash_value(&self) -> (r: u64)
        ensures
            r == text_hash(self@),
    {
        hash_payload(&self.value)
    }
}

impl Clone for OrderListId {
    /// Another identifier sharing this one's payload.
    fn clone(&self) -> (r: Self)
        ensures
            r@ == self@,
    {
        proof {
            use_type_invariant(self);
        }
        OrderListId { value: Box::new(share_payload(&self.value)) }
    }
}

impl PartialEq for OrderListId {
    fn eq(&self, other: &Self) -> (r: bool)
        ensures
            r == (self@ == other@),
    {
        **self.value == **other.value
    }
}

impl vstd::std_specs::cmp::PartialEqSpecImpl for OrderListId {
    open spec fn obeys_eq_spec() -> bool {
        true
    }

    open spec fn eq_spec(&self, other: &Self) -> bool {
        self@ == other@
    }
}

impl Eq for OrderListId {
}

} // verus!
