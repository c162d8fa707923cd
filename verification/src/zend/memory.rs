//! Alignment arithmetic of the engine allocator, and the two allocation
//! domains — transient (request-scoped) and persistent (process-lifetime) —
//! whose tag every heap header records so a release can be checked against
//! the domain the value was built in.
use vstd::prelude::*;
use crate::zend::types::{
    zend_refcounted_h, zend_string, zend_type, GC_PERSISTENT, IS_STR_PERSISTENT,
};

verus! {

pub const ZEND_MM_ALIGNMENT: zend_type = 8;

pub const ZEND_MM_ALIGNMENT_LOG2: zend_type = 3;

/// !(ZEND_MM_ALIGNMENT - 1)
pub const ZEND_MM_ALIGNMENT_MASK: zend_type = 0xffff_ffff_ffff_fff8;

/// Rounds an allocation size up to the allocator alignment.
pub fn ZEND_MM_ALIGNED_SIZE(size: usize) -> (r: zend_type)
    requires
        size + 7 <= 0xffff_ffff_ffff_ffff,
    ensures
        r % 8 == 0,
        size <= r < size + 8,
{
    let s = size as u64;
    let t = s + 7;
    let r = t & ZEND_MM_ALIGNMENT_MASK;
    proof {
        assert(t & 0xffff_ffff_ffff_fff8 == 8 * (t / 8) && t & 0xffff_ffff_ffff_fff8 <= t && t
            - 7 <= t & 0xffff_ffff_ffff_fff8) by (bit_vector)
            requires
                t >= 7,
        ;
    }
    r
}

/// The two allocator lifetimes a value can be built in.
#[derive(Clone, Copy, PartialEq, Eq, Structural, Debug)]
pub enum AllocDomain {
    /// request-scoped, released when the call context ends
    Transient,
    /// process-lifetime, backed by the general-purpose allocator
    Persistent,
}

/// The domain the per-call `persistent` flag selects.
pub open spec fn spec_domain_of(persistent: bool) -> AllocDomain {
    if persistent {
        AllocDomain::Persistent
    } else {
        AllocDomain::Transient
    }
}

/// Selects the allocation domain for one call.
pub fn domain_of(persistent: bool) -> (d: AllocDomain)
    ensures
        d == spec_domain_of(persistent),
{
    if persistent {
        AllocDomain::Persistent
    } else {
        AllocDomain::Transient
    }
}

/// The domain a heap header records: the persistence bit of its flags byte.
pub open spec fn spec_header_domain(gc: zend_refcounted_h) -> AllocDomain {
    if gc.spec_flags() & (GC_PERSISTENT as u8) != 0 {
        AllocDomain::Persistent
    } else {
        AllocDomain::Transient
    }
}

/// Reads the domain recorded in a heap header.
pub fn header_domain(gc: &zend_refcounted_h) -> (d: AllocDomain)
    ensures
        d == spec_header_domain(*gc),
{
    if gc.flags() & (GC_PERSISTENT as u8) != 0 {
        AllocDomain::Persistent
    } else {
        AllocDomain::Transient
    }
}

/// The debug-only domain-tag check before a release: the domain the caller
/// releases through must be the one the header was built with.  A mismatch
/// is a fatal contract violation in the engine, never something to recover
/// from.
pub fn release_domain_ok(gc: &zend_refcounted_h, persistent: bool) -> (ok: bool)
    ensures
        ok <==> spec_header_domain(*gc) == spec_domain_of(persistent),
{
    let d = header_domain(gc);
    let want = domain_of(persistent);
    matches!((d, want), (AllocDomain::Persistent, AllocDomain::Persistent))
        || matches!((d, want), (AllocDomain::Transient, AllocDomain::Transient))
}

/// Domain-consistency law: a header built for one domain passes the
/// release check exactly for that domain; releasing a persistent value
/// through the transient path (or the reverse) is flagged.
pub proof fn lemma_domain_mismatch_flagged(
    gc: zend_refcounted_h,
    built_persistent: bool,
    release_persistent: bool,
)
    requires
        built_persistent <==> gc.spec_flags() & (GC_PERSISTENT as u8) != 0,
    ensures
        (spec_header_domain(gc) == spec_domain_of(release_persistent)) <==> (built_persistent
            == release_persistent),
{
}

/// The domain a string handle records: the string persistence flag.
pub open spec fn spec_str_domain(s: zend_string) -> AllocDomain {
    if s.gc.spec_flags() & (IS_STR_PERSISTENT as u8) != 0 {
        AllocDomain::Persistent
    } else {
        AllocDomain::Transient
    }
}

/// The same debug check for a string handle, whose domain sits in the
/// string flag bit rather than the common persistence bit.
pub fn str_release_domain_ok(s: &zend_string, persistent: bool) -> (ok: bool)
    ensures
        ok <==> spec_str_domain(*s) == spec_domain_of(persistent),
{
    let d = if s.gc.flags() & (IS_STR_PERSISTENT as u8) != 0 {
        AllocDomain::Persistent
    } else {
        AllocDomain::Transient
    };
    let want = domain_of(persistent);
    matches!((d, want), (AllocDomain::Persistent, AllocDomain::Persistent))
        || matches!((d, want), (AllocDomain::Transient, AllocDomain::Transient))
}

} // verus!
