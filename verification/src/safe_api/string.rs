//! The owned, checked string handle.
use vstd::prelude::*;
use crate::zend::types::zend_string;

verus! {

/// An owned string handle.  The content bytes sit in front of a zero
/// terminator the length does not count.
#[derive(Debug)]
pub struct ZString(pub zend_string);

impl ZString {
    /// The content bytes, without the terminator.
    pub fn as_str(&self) -> (r: &[u8])
        requires
            self.0.buf_wf(),
        ensures
            r@ == self.0.content(),
    {
        let s = self.0.val.as_slice();
        &s[0..self.0.len]
    }

    /// Wraps a raw handle; nothing is copied but the handle itself.
    pub fn read_into_safe(raw: zend_string) -> (r: ZString)
        ensures
            r.0 == raw,
    {
        ZString(raw)
    }

    /// Hands the raw handle back out.
    pub fn raw(self) -> (r: zend_string)
        ensures
            r == self.0,
    {
        self.0
    }

    /// Views the raw handle without moving it.
    pub fn as_raw(&self) -> (r: &zend_string)
        ensures
            *r == self.0,
    {
        &self.0
    }
}

impl PartialEq for ZString {
    /// Handle equality is content equality: same length, same bytes.
    fn eq(&self, other: &ZString) -> (r: bool)
    {
        if self.0.len != other.0.len {
            return false;
        }
        let n = self.0.val.len();
        let m = other.0.val.len();
        if n != m {
            return false;
        }
        let mut i: usize = 0;
        while i < n
            invariant
                i <= n,
                n == self.0.val@.len(),
                n == other.0.val@.len(),
                self.0.len == other.0.len,
                forall|j: int| 0 <= j < i ==> self.0.val@[j] == other.0.val@[j],
            decreases n - i,
        {
            if self.0.val[i] != other.0.val[i] {
                return false;
            }
            i = i + 1;
        }
        proof {
            assert(self.0.val@ =~= other.0.val@);
        }
        true
    }
}

impl vstd::std_specs::cmp::PartialEqSpecImpl for ZString {
    open spec fn obeys_eq_spec() -> bool {
        true
    }

    open spec fn eq_spec(&self, other: &ZString) -> bool {
        self.0.len == other.0.len && self.0.val@ == other.0.val@
    }
}

} // verus!
