//! The plain records of the compiled-function layer that this library
//! reads as data.  The op-array, execute-data and function structures are
//! engine-owned and stay behind the foreign boundary.
use vstd::prelude::*;

verus! {

/// One try/catch/finally region of an op array, as four opline offsets.
#[derive(Clone, Copy, PartialEq, Eq, Structural, Debug)]
pub struct zend_try_catch_element {
    pub try_op: u32,
    pub catch_op: u32,
    pub finally_op: u32,
    pub finally_end: u32,
}

/// One break/continue target pair of an op array.
#[derive(Clone, Copy, PartialEq, Eq, Structural, Debug)]
pub struct zend_brk_cont_element {
    pub start: i32,
    pub cont: i32,
    pub brk: i32,
    pub parent: i32,
}

} // verus!
