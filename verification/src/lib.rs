//! A safe, verified model of the Zend engine's dynamic value layer: the
//! tagged value representation, the refcounted header with its packed
//! type/flags/gc fields, the insertion-ordered hash table with tombstones
//! and indirect slots, and the allocator-domain discipline.
#![allow(non_snake_case)]
#![allow(non_camel_case_types)]

pub mod function;
pub mod safe_api;
pub mod zend;

pub use safe_api::{Array, ArrayApi, ArrayBuilder, ArrayIndex, BucketsIter, BucketsIterMut, Refcounted, Value, ZString, Zval};
pub use zend::types::{Bool, Long, OffT, Type, Uchar, Ulong, ZEND_RESULT_CODE};
