//! Read access to the packed refcounted header.
use vstd::prelude::*;
use crate::zend::types::{zend_refcounted_h, zend_uchar};

verus! {

/// A checked view of the common heap header: the reference count and the
/// packed type/flags/gc fields.  This layer only reads the header; the
/// count itself is moved by the host, which owns release semantics.
#[derive(Clone, Copy, PartialEq, Eq, Structural, Debug)]
pub struct Refcounted(pub zend_refcounted_h);

impl Refcounted {
    pub fn refcount(&self) -> (r: u32)
        ensures
            r == self.0.refcount,
    {
        self.0.refcount()
    }

    pub fn type_info(&self) -> (r: u32)
        ensures
            r == self.0.type_info,
    {
        self.0.type_info()
    }

    pub fn type_(&self) -> (r: zend_uchar)
        ensures
            r == self.0.spec_type_(),
    {
        self.0.type_()
    }

    pub fn flags(&self) -> (r: zend_uchar)
        ensures
            r == self.0.spec_flags(),
    {
        self.0.flags()
    }

    pub fn gc_info(&self) -> (r: u16)
        ensures
            r == self.0.spec_gc_info(),
    {
        self.0.gc_info()
    }
}

impl From<zend_refcounted_h> for Refcounted {
    fn from(from: zend_refcounted_h) -> (r: Refcounted)
        ensures
            r == Refcounted(from),
    {
        Refcounted(from)
    }
}

impl vstd::std_specs::convert::FromSpecImpl<zend_refcounted_h> for Refcounted {
    open spec fn obeys_from_spec() -> bool {
        true
    }

    open spec fn from_spec(from: zend_refcounted_h) -> Refcounted {
        Refcounted(from)
    }
}

} // verus!
