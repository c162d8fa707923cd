//! The safe, checked view over the raw value layer: classified access to
//! tagged values, the ordered-table API, and the string and header
//! wrappers.  Every wrapper is a plain newtype over its raw counterpart,
//! so moving between the two copies nothing but the value itself.

pub mod array;
pub mod refcounted;
pub mod string;
pub mod zval;

pub use array::{Array, ArrayApi, ArrayBuilder, ArrayIndex, BucketsIter, BucketsIterMut};
pub use refcounted::Refcounted;
pub use string::ZString;
pub use zval::{Value, Zval};
