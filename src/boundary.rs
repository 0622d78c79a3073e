//! Flat functions through which a caller on the far side of a foreign-function
//! boundary creates, inspects and releases identifiers, holding them only as
//! owned handles.
use vstd::prelude::*;
use vstd::utf8::encode_utf8;

use crate::order_list_id::{text_hash, OrderListId};
use crate::validation::is_valid_text;

verus! {

/// Creates an identifier from the text the caller hands over.
pub fn order_list_id_new(s: &str) -> (r: OrderListId)
    requires
        is_valid_text(s@),
    ensures
        r@ == s@,
{
    OrderListId::new(s)
}

/// A second handle to the same payload.
pub fn order_list_id_clone(order_list_id: &OrderListId) -> (r: OrderListId)
    ensures
        r@ == order_list_id@,
{
    order_list_id.clone()
}

/// Releases the handle; the payload goes once no other handle shares it.
pub fn order_list_id_free(order_list_id: OrderListId) {
    let _ = order_list_id;
}

/// The payload as UTF-8 bytes followed by a terminating zero byte.
pub fn order_list_id_to_cstr(order_list_id: &OrderListId) -> (r: Vec<u8>)
    ensures
        r@ == encode_utf8(order_list_id@).push(0u8),
{
    let text = order_list_id.to_string();
    let bytes = text.as_str().as_bytes();
    let mut out: Vec<u8> = Vec::new();
    for i in 0..bytes.len()
        invariant
            bytes@ == encode_utf8(order_list_id@),
            out@ == bytes@.subrange(0, i as int),
    {
        out.push(bytes[i]);
    }
    assert(out@ == bytes@);
    out.push(0u8);
    out
}

/// 1 when both identifiers hold the same payload, else 0.
pub fn order_list_id_eq(lhs: &OrderListId, rhs: &OrderListId) -> (r: u8)
    ensures
        r == (if lhs@ == rhs@ { 1u8 } else { 0u8 }),
{
    if lhs == rhs {
        1
    } else {
        0
    }
}

/// The hash of the identifier's payload.
pub fn order_list_id_hash(order_list_id: &OrderListId) -> (r: u64)
    ensures
        r == text_hash(order_list_id@),
{
    order_list_id.hash_value()
}

} // verus!
