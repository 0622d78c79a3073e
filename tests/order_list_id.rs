use std::collections::hash_map::DefaultHasher;
use std::hash::{Hash, Hasher};

use nautilus_model::boundary::{
    order_list_id_clone, order_list_id_eq, order_list_id_free, order_list_id_hash,
    order_list_id_new, order_list_id_to_cstr,
};
use nautilus_model::order_list_id::OrderListId;
use nautilus_model::validation::{char_is_white_space, check_valid_string, ValidationError};

fn std_hash_of_text(s: &str) -> u64 {
    let mut h = DefaultHasher::new();
    s.to_string().hash(&mut h);
    h.finish()
}

#[test]
fn test_equality() {
    let id1 = OrderListId::new("001");
    let id2 = OrderListId::new("002");
    assert_eq!(id1, id1);
    assert_ne!(id1, id2);
}

#[test]
fn test_string_reprs() {
    let id = OrderListId::new("001");
    assert_eq!(id.to_string(), "001");
    assert_eq!(format!("{}", id.to_string()), "001");
}

#[test]
fn test_order_list_id_free() {
    let id = OrderListId::new("001");

    order_list_id_free(id); // No panic
}

#[test]
fn try_new_accepts_text_and_renders_it() {
    let id = OrderListId::try_new("001").unwrap();
    assert_eq!(id.to_string(), "001");
    let padded = OrderListId::try_new("  A-1 ").unwrap();
    assert_eq!(padded.to_string(), "  A-1 ");
}

#[test]
fn try_new_refuses_empty_text() {
    assert_eq!(OrderListId::try_new(""), Err(ValidationError::Empty));
}

#[test]
fn try_new_refuses_blank_text() {
    assert_eq!(OrderListId::try_new(" "), Err(ValidationError::Whitespace));
    assert_eq!(OrderListId::try_new(" \t\r\n"), Err(ValidationError::Whitespace));
    assert_eq!(OrderListId::try_new("\u{3000}\u{a0}\u{2028}"), Err(ValidationError::Whitespace));
}

#[test]
fn check_valid_string_cases() {
    assert_eq!(check_valid_string("x"), Ok(()));
    assert_eq!(check_valid_string(" x "), Ok(()));
    assert_eq!(check_valid_string("\u{200b}"), Ok(()));
    assert_eq!(check_valid_string(""), Err(ValidationError::Empty));
    assert_eq!(check_valid_string("\u{85}\u{1680}\u{205f}"), Err(ValidationError::Whitespace));
}

#[test]
fn white_space_matches_std() {
    for u in 0u32..0x3100 {
        if let Some(c) = char::from_u32(u) {
            assert_eq!(char_is_white_space(c), c.is_whitespace(), "code point {u:#x}");
        }
    }
    assert!(!char_is_white_space('a'));
    assert!(!char_is_white_space('\u{10ffff}'));
}

#[test]
fn same_text_gives_equal_ids_with_equal_hashes() {
    let a = OrderListId::new("ORD-7");
    let b = OrderListId::new("ORD-7");
    assert_eq!(a, b);
    assert_eq!(order_list_id_eq(&a, &b), 1);
    assert_eq!(a.hash_value(), b.hash_value());
    assert_eq!(order_list_id_hash(&a), order_list_id_hash(&b));
}

#[test]
fn different_texts_give_unequal_ids() {
    let a = order_list_id_new("001");
    let b = order_list_id_new("002");
    assert_eq!(order_list_id_eq(&a, &b), 0);
    assert_eq!(order_list_id_eq(&b, &a), 0);
    assert!(a != b);
}

#[test]
fn hash_is_the_default_hasher_of_the_text() {
    let id = OrderListId::new("001");
    assert_eq!(order_list_id_hash(&id), std_hash_of_text("001"));
    let mut h = DefaultHasher::new();
    id.hash(&mut h);
    assert_eq!(order_list_id_hash(&id), h.finish());
    assert_ne!(order_list_id_hash(&id), std_hash_of_text("002"));
}

#[test]
fn clone_is_equal_and_survives_free_of_the_other() {
    let id = OrderListId::new("ORD-42");
    let copy = order_list_id_clone(&id);
    assert_eq!(order_list_id_eq(&copy, &id), 1);
    assert_eq!(copy.to_string(), "ORD-42");
    order_list_id_free(copy);
    assert_eq!(id.to_string(), "ORD-42");

    let second = id.clone();
    order_list_id_free(id);
    assert_eq!(second.to_string(), "ORD-42");
}

#[test]
fn to_cstr_is_utf8_with_terminator() {
    let id = OrderListId::new("001");
    assert_eq!(order_list_id_to_cstr(&id), vec![b'0', b'0', b'1', 0u8]);
    let wide = OrderListId::new("é€");
    assert_eq!(order_list_id_to_cstr(&wide), vec![0xc3, 0xa9, 0xe2, 0x82, 0xac, 0]);
}

#[test]
fn new_boundary_keeps_text() {
    let id = order_list_id_new("ORD-42");
    assert_eq!(id.to_string(), "ORD-42");
    assert_eq!(id, OrderListId::new("ORD-42"));
}
