//! Functions that compile only for types with the traits a kind of type is
//! meant to have. They do nothing when called.

use std::fmt::Debug;
use std::hash::Hash;
use vstd::prelude::*;

verus! {

/// Accepts a small value struct: one that can be copied, compared, ordered,
/// hashed, printed, made by default and passed between threads.
pub fn is_small_value_struct<T>(_value: &T) where
    T: Sync + Send + Copy + Clone + Default + Debug + Hash + PartialEq + Eq + PartialOrd + Ord,
 {
}

/// Accepts a small value enum: one that can be copied, compared, ordered,
/// hashed, printed and passed between threads.
pub fn is_small_value_enum<T>(_value: &T) where
    T: Sync + Send + Copy + Clone + Debug + Hash + PartialEq + Eq + PartialOrd + Ord,
 {
}

/// Accepts a type that stands for a native handle: one that can be printed.
pub fn is_ffi_struct<T>(_value: &T) where T: Debug {
}

} // verus!
