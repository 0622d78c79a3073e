//! An immutable, validated, text-backed identifier for order lists, with a
//! flat boundary interface of create / clone / compare / hash / render / free.
pub mod validation;
pub mod order_list_id;
pub mod boundary;
pub mod laws;
