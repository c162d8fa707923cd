//! Constructors for the refcounted string handle: a fresh header, an unset
//! hash cache, and a zero-terminated buffer.
use vstd::prelude::*;
use crate::zend::types::{
    zend_refcounted_h, zend_string, zend_uchar, IS_STRING, IS_STR_PERSISTENT,
};

verus! {

impl zend_string {
    /// A fresh string of `len` zero bytes: header with refcount 1, the
    /// string type byte and, for the persistent domain, the persistence
    /// flag; hash cache unset; buffer of `len` bytes plus the terminator.
    pub fn alloc_buf(len: usize, persistent: bool) -> (s: zend_string)
        requires
            len < usize::MAX,
        ensures
            s.gc.refcount == 1,
            s.gc.spec_type_() == IS_STRING as zend_uchar,
            s.gc.spec_gc_info() == 0,
            (persistent <==> s.gc.spec_flags() & (IS_STR_PERSISTENT as u8) != 0),
            s.h == 0,
            s.len == len,
            s.buf_wf(),
            s.content() == Seq::new(len as nat, |i: int| 0u8),
    {
        let flags: u8 = if persistent {
            IS_STR_PERSISTENT as u8
        } else {
            0
        };
        proof {
            assert(1u8 & 1u8 != 0u8) by (bit_vector);
            assert(0u8 & 1u8 == 0u8) by (bit_vector);
        }
        let gc = zend_refcounted_h::fresh(IS_STRING as u8, flags);
        let mut val: Vec<u8> = Vec::new();
        let mut i: usize = 0;
        while i <= len
            invariant
                i <= len + 1,
                len < usize::MAX,
                val@ == Seq::new(i as nat, |j: int| 0u8),
            decreases len + 1 - i,
        {
            val.push(0);
            proof {
                assert(val@ =~= Seq::new((i + 1) as nat, |j: int| 0u8));
            }
            i = i + 1;
        }
        let s = zend_string { gc, h: 0, len, val };
        proof {
            assert(s.content() =~= Seq::new(len as nat, |i: int| 0u8));
        }
        s
    }

    /// A fresh string holding a copy of `src`, zero-terminated.
    pub fn init(src: &[u8], persistent: bool) -> (s: zend_string)
        requires
            src@.len() < usize::MAX,
        ensures
            s.gc.refcount == 1,
            s.gc.spec_type_() == IS_STRING as zend_uchar,
            s.gc.spec_gc_info() == 0,
            (persistent <==> s.gc.spec_flags() & (IS_STR_PERSISTENT as u8) != 0),
            s.h == 0,
            s.hash_ok(),
            s.len == src@.len(),
            s.buf_wf(),
            s.content() == src@,
    {
        let len = src.len();
        let mut s = Self::alloc_buf(len, persistent);
        let mut i: usize = 0;
        while i < len
            invariant
                i <= len,
                len == src@.len(),
                s.len == len,
                s.val@.len() == len + 1,
                s.val@[len as int] == 0,
                s.gc.refcount == 1,
                s.gc.spec_type_() == IS_STRING as zend_uchar,
                s.gc.spec_gc_info() == 0,
                (persistent <==> s.gc.spec_flags() & (IS_STR_PERSISTENT as u8) != 0),
                s.h == 0,
                forall|j: int| 0 <= j < i ==> s.val@[j] == src@[j],
            decreases len - i,
        {
            let b = src[i];
            s.val.set(i, b);
            i = i + 1;
        }
        proof {
            assert(s.content() =~= src@);
        }
        s
    }
}

} // verus!
