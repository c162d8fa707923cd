//! The ordered hash table: content hashing with lazy memoization, lookup
//! with indirect resolution, in-place update, tombstoning deletes, and
//! doubling growth.
use vstd::prelude::*;
use crate::zend::types::{
    count_live, spec_is_pow2, zend_array, zend_refcounted_h, zend_string, zend_type, zend_uchar,
    zend_ulong, zend_value, zval, Bucket, DtorFuncT, HashKey, ZEND_RESULT_CODE, GC_COLLECTABLE,
    GC_PERSISTENT, IS_ARRAY, IS_INDIRECT, IS_UNDEF,
};

verus! {

pub const HASH_KEY_IS_STRING: i32 = 1;

pub const HASH_KEY_IS_LONG: i32 = 2;

pub const HASH_KEY_NON_EXISTENT: i32 = 3;

/// table flags word bits (low byte of `zend_array.u`)
pub const HASH_FLAG_PERSISTENT: u32 = 0x01;

pub const HASH_FLAG_APPLY_PROTECTION: u32 = 0x02;

pub const HASH_FLAG_PACKED: u32 = 0x04;

pub const HASH_FLAG_INITIALIZED: u32 = 0x08;

pub const HASH_FLAG_STATIC_KEYS: u32 = 0x10;

pub const HASH_FLAG_HAS_EMPTY_IND: u32 = 0x20;

/// One step of the times-33 content hash, in wrapping 64-bit arithmetic.
pub open spec fn hash_step(h: u64, b: u8) -> u64 {
    vstd::wrapping::u64_specs::wrapping_add(
        vstd::wrapping::u64_specs::wrapping_mul(h, 33),
        b as u64,
    )
}

/// The content hash of a byte-string key: the times-33 fold over the bytes,
/// seeded with 5381.
pub open spec fn hash_of(s: Seq<u8>) -> u64
    decreases s.len(),
{
    if s.len() <= 0 {
        5381u64
    } else {
        hash_step(hash_of(s.drop_last()), s.last())
    }
}

/// Computes the content hash of the given key bytes.
pub fn hash_func(bytes: &[u8]) -> (h: u64)
    ensures
        h == hash_of(bytes@),
{
    let mut h: u64 = 5381;
    let mut i: usize = 0;
    while i < bytes.len()
        invariant
            i <= bytes@.len(),
            h == hash_of(bytes@.subrange(0, i as int)),
        decreases bytes@.len() - i,
    {
        proof {
            assert(bytes@.subrange(0, i + 1).drop_last() =~= bytes@.subrange(0, i as int));
            assert(bytes@.subrange(0, i + 1).last() == bytes@[i as int]);
        }
        h = h.wrapping_mul(33).wrapping_add(bytes[i] as u64);
        i = i + 1;
    }
    proof {
        assert(bytes@.subrange(0, bytes@.len() as int) =~= bytes@);
    }
    h
}

impl zend_string {
    /// Cache discipline of the memoized hash: 0 means not yet computed,
    /// anything else is the content hash.
    pub open spec fn hash_ok(self) -> bool {
        self.h == 0 || self.h == hash_of(self.content())
    }

    /// Lazily computes and memoizes the content hash, as table operations
    /// do; the string itself never computes it eagerly.
    pub fn hash_val(&mut self) -> (h: zend_ulong)
        requires
            old(self).buf_wf(),
            old(self).hash_ok(),
        ensures
            h == hash_of(old(self).content()),
            h == final(self).h,
            final(self).gc == old(self).gc,
            final(self).len == old(self).len,
            final(self).val == old(self).val,
            final(self).buf_wf(),
            final(self).hash_ok(),
    {
        if self.h == 0 {
            let ghost old_val = self.val@;
            let h = {
                let bytes = self.val.as_slice();
                proof {
                    assert(bytes@.subrange(0, self.len as int) == self.content());
                }
                let content = slice_take(bytes, self.len);
                hash_func(content)
            };
            self.h = h;
        }
        self.h
    }
}

/// The first `n` elements of a slice.
fn slice_take<'a>(s: &'a [u8], n: usize) -> (r: &'a [u8])
    requires
        n <= s@.len(),
    ensures
        r@ == s@.subrange(0, n as int),
{
    &s[0..n]
}

/// Content equality of a stored key and probe bytes.
fn str_eq_bytes(s: &zend_string, b: &[u8]) -> (r: bool)
    requires
        s.buf_wf(),
    ensures
        r <==> s.content() == b@,
{
    if s.len != b.len() {
        proof {
            assert(s.content().len() == s.len);
        }
        return false;
    }
    let mut i: usize = 0;
    while i < b.len()
        invariant
            i <= b@.len(),
            s.len == b@.len(),
            s.buf_wf(),
            forall|j: int| 0 <= j < i ==> s.val@[j] == b@[j],
        decreases b@.len() - i,
    {
        let sb = s.val[i];
        if sb != b[i] {
            proof {
                assert(s.content()[i as int] == s.val@[i as int]);
            }
            return false;
        }
        i = i + 1;
    }
    proof {
        assert(s.content() =~= b@);
    }
    true
}

/// Appending one slot adds its liveness to the live count.
pub proof fn lemma_count_live_push(s: Seq<Bucket>, b: Bucket)
    ensures
        count_live(s.push(b)) == count_live(s) + (if b.live() {
            1int
        } else {
            0int
        }),
{
    assert(s.push(b).drop_last() =~= s);
    assert(s.push(b).last() == b);
}

/// The live count is bounded by the slot count.
pub proof fn lemma_count_live_bounds(s: Seq<Bucket>)
    ensures
        0 <= count_live(s) <= s.len(),
    decreases s.len(),
{
    if s.len() > 0 {
        lemma_count_live_bounds(s.drop_last());
    }
}

/// Replacing one slot shifts the live count by the liveness change.
pub proof fn lemma_count_live_update(s: Seq<Bucket>, i: int, b: Bucket)
    requires
        0 <= i < s.len(),
    ensures
        count_live(s.update(i, b)) == count_live(s) - (if s[i].live() {
            1int
        } else {
            0int
        }) + (if b.live() {
            1int
        } else {
            0int
        }),
    decreases s.len(),
{
    if i == s.len() - 1 {
        assert(s.update(i, b).drop_last() =~= s.drop_last());
        assert(s.update(i, b).last() == b);
    } else {
        assert(s.update(i, b).drop_last() =~= s.drop_last().update(i, b));
        assert(s.update(i, b).last() == s.last());
        lemma_count_live_update(s.drop_last(), i, b);
    }
}

/// The keys of the live slots, in storage order: what an order-respecting
/// walk of the table files its entries under.
pub open spec fn live_keys(s: Seq<Bucket>) -> Seq<HashKey>
    decreases s.len(),
{
    if s.len() == 0 {
        Seq::empty()
    } else if s.last().live() {
        live_keys(s.drop_last()).push(s.last().key_of())
    } else {
        live_keys(s.drop_last())
    }
}

/// Appending one slot appends its key to the live keys when it is live.
pub proof fn lemma_live_keys_push(s: Seq<Bucket>, b: Bucket)
    ensures
        live_keys(s.push(b)) == (if b.live() {
            live_keys(s).push(b.key_of())
        } else {
            live_keys(s)
        }),
{
    assert(s.push(b).drop_last() =~= s);
    assert(s.push(b).last() == b);
}

/// Splitting around one slot: the live keys are those before it, its own
/// key when it is live, then those after it.
pub proof fn lemma_live_keys_split(s: Seq<Bucket>, i: int)
    requires
        0 <= i < s.len(),
    ensures
        live_keys(s) == live_keys(s.subrange(0, i)) + (if s[i].live() {
            seq![s[i].key_of()]
        } else {
            Seq::empty()
        }) + live_keys(s.subrange(i + 1, s.len() as int)),
    decreases s.len(),
{
    let n = s.len() as int;
    if i == n - 1 {
        assert(s.subrange(0, i) =~= s.drop_last());
        assert(s.subrange(i + 1, n) =~= Seq::<Bucket>::empty());
        if s[i].live() {
            assert(live_keys(s) =~= live_keys(s.subrange(0, i)) + seq![s[i].key_of()]
                + live_keys(s.subrange(i + 1, n)));
        } else {
            assert(live_keys(s) =~= live_keys(s.subrange(0, i)) + Seq::<HashKey>::empty()
                + live_keys(s.subrange(i + 1, n)));
        }
    } else {
        lemma_live_keys_split(s.drop_last(), i);
        assert(s.drop_last().subrange(0, i) =~= s.subrange(0, i));
        assert(s.drop_last().subrange(i + 1, n - 1) =~= s.subrange(i + 1, n - 1));
        assert(s.subrange(i + 1, n) =~= s.subrange(i + 1, n - 1).push(s.last()));
        lemma_live_keys_push(s.subrange(i + 1, n - 1), s.last());
        if s.last().live() {
            assert(live_keys(s) == live_keys(s.drop_last()).push(s.last().key_of()));
            if s[i].live() {
                assert(live_keys(s) =~= live_keys(s.subrange(0, i)) + seq![s[i].key_of()]
                    + live_keys(s.subrange(i + 1, n)));
            } else {
                assert(live_keys(s) =~= live_keys(s.subrange(0, i)) + Seq::<HashKey>::empty()
                    + live_keys(s.subrange(i + 1, n)));
            }
        } else {
            assert(live_keys(s) == live_keys(s.drop_last()));
            if s[i].live() {
                assert(live_keys(s) =~= live_keys(s.subrange(0, i)) + seq![s[i].key_of()]
                    + live_keys(s.subrange(i + 1, n)));
            } else {
                assert(live_keys(s) =~= live_keys(s.subrange(0, i)) + Seq::<HashKey>::empty()
                    + live_keys(s.subrange(i + 1, n)));
            }
        }
    }
}

/// Rounds a requested minimum up to the tracked bucket capacity: the next
/// power of two, and no less than 8.
fn check_size(n_size: u32) -> (r: u32)
    requires
        n_size <= 0x8000_0000,
    ensures
        spec_is_pow2(r),
        8 <= r,
        n_size <= r,
        r == 8 || r / 2 < n_size,
{
    let mut cap: u32 = 8;
    proof {
        assert(spec_is_pow2(8u32)) by {
            reveal_with_fuel(spec_is_pow2, 5);
        }
    }
    while cap < n_size
        invariant
            n_size <= 0x8000_0000,
            spec_is_pow2(cap),
            8 <= cap,
            cap == 8 || cap / 2 < n_size,
        decreases 2 * n_size - cap,
    {
        proof {
            assert(spec_is_pow2((2 * cap) as u32)) by {
                assert(((2 * cap) as u32) % 2 == 0);
                assert(((2 * cap) as u32) / 2 == cap);
            }
        }
        cap = cap * 2;
    }
    cap
}

/// Insertion-order law, update case: writing an existing key leaves the
/// sequence of live keys — the iteration order — unchanged.
pub proof fn lemma_update_existing_preserves_order(
    pre: zend_array,
    post: zend_array,
    k: HashKey,
    v: zval,
    idx: int,
)
    requires
        pre.wf(),
        pre.has_key(k),
        v.type_of() != IS_UNDEF,
        zend_array::spec_update_ind(pre, post, k, v, idx),
    ensures
        live_keys(post.arData@) == live_keys(pre.arData@),
{
    let i = pre.index_of_key(k);
    let n = pre.arData@.len() as int;
    lemma_live_keys_split(pre.arData@, i);
    lemma_live_keys_split(post.arData@, i);
    assert(post.arData@.subrange(0, i) =~= pre.arData@.subrange(0, i));
    assert(post.arData@.subrange(i + 1, n) =~= pre.arData@.subrange(i + 1, n));
    assert(pre.arData@[i].live());
    assert(post.arData@[i].live());
    assert(post.arData@[i].key_of() == pre.arData@[i].key_of());
}

/// Insertion-order law, insert case: a key the table does not hold is
/// appended at the end of the live key sequence — also after a delete of
/// the same key, which is why re-insertion does not reclaim the old
/// position.
pub proof fn lemma_insert_new_appends(
    pre: zend_array,
    post: zend_array,
    k: HashKey,
    v: zval,
    idx: int,
)
    requires
        pre.wf(),
        !pre.has_key(k),
        v.type_of() != IS_UNDEF,
        zend_array::spec_update_ind(pre, post, k, v, idx),
    ensures
        live_keys(post.arData@) == live_keys(pre.arData@).push(k),
{
    let n = pre.arData@.len() as int;
    assert(post.arData@ =~= pre.arData@.push(post.arData@[n]));
    lemma_live_keys_push(pre.arData@, post.arData@[n]);
}

/// The append-without-key counter never decreases: integer inserts move
/// it forward or leave it, string inserts and deletes leave it.
pub proof fn lemma_next_free_monotone(
    pre: zend_array,
    post: zend_array,
    h: zend_ulong,
    v: zval,
    idx: int,
)
    requires
        zend_array::spec_index_update(pre, post, h, v, idx),
    ensures
        post.nNextFreeElement >= pre.nNextFreeElement,
{
}

/// Growth law: an insert leaves the capacity alone unless it lands a new
/// key in full storage, and then the capacity exactly doubles.
pub proof fn lemma_growth_trigger(
    pre: zend_array,
    post: zend_array,
    k: HashKey,
    v: zval,
    idx: int,
)
    requires
        pre.wf(),
        zend_array::spec_update_ind(pre, post, k, v, idx),
    ensures
        post.nTableSize == pre.nTableSize || (!pre.has_key(k) && pre.nNumUsed == pre.nTableSize
            && post.nTableSize == 2 * pre.nTableSize),
        pre.nNumUsed < pre.nTableSize ==> post.nTableSize == pre.nTableSize,
{
}

/// Indirect-resolution law: an indirect slot whose target is undefined
/// reads as absent, one whose target is defined reads as that target —
/// never as the indirection itself.
pub proof fn lemma_indirect_resolution(a: zend_array, k: HashKey)
    requires
        a.wf(),
        a.has_key(k),
        a.arData@[a.index_of_key(k)].val.type_of() == IS_INDIRECT,
    ensures
        ({
            let b = a.arData@[a.index_of_key(k)];
            b.val.value matches zend_value::Indirect(t) && (t.type_of() == IS_UNDEF
                ==> a.lookup_ind(k) is None) && (t.type_of() != IS_UNDEF ==> a.lookup_ind(k)
                == Some(*t))
        }),
{
    let i = a.index_of_key(k);
    assert(a.arData@[i].val.wf());
}

/// Tombstone law: deleting a key removes exactly its entry from the live
/// key sequence, keeping every other entry in place.
pub proof fn lemma_delete_removes_key(pre: zend_array, post: zend_array, k: HashKey)
    requires
        pre.wf(),
        pre.has_key(k),
        zend_array::spec_del(pre, post, k),
    ensures
        ({
            let i = pre.index_of_key(k);
            let n = pre.arData@.len() as int;
            live_keys(pre.arData@) == live_keys(pre.arData@.subrange(0, i)) + seq![k]
                + live_keys(pre.arData@.subrange(i + 1, n)) && live_keys(post.arData@)
                == live_keys(pre.arData@.subrange(0, i)) + live_keys(
                pre.arData@.subrange(i + 1, n),
            )
        }),
{
    let i = pre.index_of_key(k);
    let n = pre.arData@.len() as int;
    lemma_live_keys_split(pre.arData@, i);
    lemma_live_keys_split(post.arData@, i);
    assert(post.arData@.subrange(0, i) =~= pre.arData@.subrange(0, i));
    assert(post.arData@.subrange(i + 1, n) =~= pre.arData@.subrange(i + 1, n));
    assert(pre.arData@[i].live() && pre.arData@[i].key_of() == k);
    assert(!post.arData@[i].live());
    assert(live_keys(pre.arData@) =~= live_keys(pre.arData@.subrange(0, i)) + seq![k]
        + live_keys(pre.arData@.subrange(i + 1, n)));
    assert(live_keys(post.arData@) =~= live_keys(pre.arData@.subrange(0, i)) + live_keys(
        pre.arData@.subrange(i + 1, n),
    ));
}

impl zend_array {
    /// Growth headroom for inserting under key `k`: either the slot exists,
    /// or storage is not full, or the capacity may still double.
    pub open spec fn room_for(self, k: HashKey) -> bool {
        self.has_key(k) || self.nNumUsed < self.nTableSize || self.nTableSize <= 0x4000_0000
    }

    /// What a plain (non-resolving) lookup reports for key `k`.
    pub open spec fn lookup_plain(self, k: HashKey) -> Option<zval> {
        if self.has_key(k) {
            Some(self.arData@[self.index_of_key(k)].val)
        } else {
            None
        }
    }

    /// Scans the storage in order for the live slot under a byte-string
    /// key, skipping tombstones.
    fn find_pos_bytes(&self, key: &[u8]) -> (r: Option<usize>)
        requires
            self.wf(),
        ensures
            (match r {
                Some(i) => i < self.arData@.len() && self.arData@[i as int].live()
                    && self.arData@[i as int].key_of() == HashKey::Str(key@) && self.has_key(
                    HashKey::Str(key@),
                ) && self.index_of_key(HashKey::Str(key@)) == i,
                None => !self.has_key(HashKey::Str(key@)),
            }),
    {
        let ghost k = HashKey::Str(key@);
        let n = self.arData.len();
        let mut i: usize = 0;
        while i < n
            invariant
                self.wf(),
                n == self.arData@.len(),
                i <= n,
                forall|j: int|
                    0 <= j < i ==> !((#[trigger] self.arData@[j]).live() && self.arData@[j].key_of()
                        == HashKey::Str(key@)),
            decreases n - i,
        {
            let b = &self.arData[i];
            if !(b.val.get_type() as zend_type == IS_UNDEF) {
                match &b.key {
                    Some(s) => {
                        let sref: &zend_string = s;
                        if str_eq_bytes(sref, key) {
                            proof {
                                assert(sref.content() == key@);
                                assert(self.arData@[i as int].key_of() == HashKey::Str(
                                    sref.content(),
                                ));
                                crate::zend::types::lemma_key_index(
                                    *self,
                                    HashKey::Str(key@),
                                    i as int,
                                );
                            }
                            return Some(i);
                        }
                    },
                    None => {},
                }
            }
            i = i + 1;
        }
        proof {
            if self.has_key(k) {
                let j = choose|j: int|
                    0 <= j < self.arData@.len() && (#[trigger] self.arData@[j]).live()
                        && self.arData@[j].key_of() == k;
                assert(!(self.arData@[j].live() && self.arData@[j].key_of() == k));
            }
        }
        None
    }

    /// Scans the storage in order for the live slot under an integer index.
    fn find_pos_int(&self, h: zend_ulong) -> (r: Option<usize>)
        requires
            self.wf(),
        ensures
            (match r {
                Some(i) => i < self.arData@.len() && self.arData@[i as int].live()
                    && self.arData@[i as int].key_of() == HashKey::Int(h) && self.has_key(
                    HashKey::Int(h),
                ) && self.index_of_key(HashKey::Int(h)) == i,
                None => !self.has_key(HashKey::Int(h)),
            }),
    {
        let ghost k = HashKey::Int(h);
        let n = self.arData.len();
        let mut i: usize = 0;
        while i < n
            invariant
                self.wf(),
                n == self.arData@.len(),
                i <= n,
                forall|j: int|
                    0 <= j < i ==> !((#[trigger] self.arData@[j]).live() && self.arData@[j].key_of()
                        == HashKey::Int(h)),
            decreases n - i,
        {
            let b = &self.arData[i];
            if !(b.val.get_type() as zend_type == IS_UNDEF) {
                match &b.key {
                    Some(_) => {},
                    None => {
                        if b.h == h {
                            proof {
                                assert(self.arData@[i as int].key_of() == HashKey::Int(b.h));
                                crate::zend::types::lemma_key_index(
                                    *self,
                                    HashKey::Int(h),
                                    i as int,
                                );
                            }
                            return Some(i);
                        }
                    },
                }
            }
            i = i + 1;
        }
        proof {
            if self.has_key(k) {
                let j = choose|j: int|
                    0 <= j < self.arData@.len() && (#[trigger] self.arData@[j]).live()
                        && self.arData@[j].key_of() == k;
                assert(!(self.arData@[j].live() && self.arData@[j].key_of() == k));
            }
        }
        None
    }

    /// Lookup under a byte-string key, resolving an indirect slot one level
    /// and treating a resolved undefined value as absent.
    pub fn str_find_ind(&self, key: &[u8]) -> (r: Option<&zval>)
        requires
            self.wf(),
        ensures
            (match r {
                Some(v) => self.lookup_ind(HashKey::Str(key@)) == Some(*v),
                None => self.lookup_ind(HashKey::Str(key@)) is None,
            }),
    {
        match self.find_pos_bytes(key) {
            Some(i) => self.arData[i].get_val(true),
            None => None,
        }
    }

    /// Lookup under a string handle, with the same resolution rules.
    pub fn find_ind(&self, key: &zend_string) -> (r: Option<&zval>)
        requires
            self.wf(),
            key.buf_wf(),
        ensures
            (match r {
                Some(v) => self.lookup_ind(HashKey::Str(key.content())) == Some(*v),
                None => self.lookup_ind(HashKey::Str(key.content())) is None,
            }),
    {
        let bytes = slice_take(key.val.as_slice(), key.len);
        self.str_find_ind(bytes)
    }

    /// Existence under a byte-string key: exactly when a resolving lookup
    /// would report a value.
    pub fn str_exists_ind(&self, key: &[u8]) -> (r: bool)
        requires
            self.wf(),
        ensures
            r <==> (self.lookup_ind(HashKey::Str(key@)) is Some),
    {
        matches!(self.str_find_ind(key), Some(_))
    }

    /// Existence under a string handle, with the same resolution rules.
    pub fn exists_ind(&self, key: &zend_string) -> (r: bool)
        requires
            self.wf(),
            key.buf_wf(),
        ensures
            r <==> (self.lookup_ind(HashKey::Str(key.content())) is Some),
    {
        matches!(self.find_ind(key), Some(_))
    }

    /// Plain lookup under an integer index (no indirect resolution).
    pub fn index_find(&self, h: zend_ulong) -> (r: Option<&zval>)
        requires
            self.wf(),
        ensures
            (match r {
                Some(v) => self.lookup_plain(HashKey::Int(h)) == Some(*v),
                None => self.lookup_plain(HashKey::Int(h)) is None,
            }),
    {
        match self.find_pos_int(h) {
            Some(i) => Some(&self.arData[i].val),
            None => None,
        }
    }

    /// Existence under an integer index.
    pub fn index_exists(&self, h: zend_ulong) -> (r: bool)
        requires
            self.wf(),
        ensures
            r <==> (self.lookup_plain(HashKey::Int(h)) is Some),
    {
        matches!(self.index_find(h), Some(_))
    }

    /// Relation between the table before and after an insert-or-update of
    /// value `v` under string key `k` at storage index `idx`, with the
    /// resolving update rule: an existing slot keeps its position (and an
    /// indirect slot is written through), a new entry is appended after
    /// growing storage if it was full.
    pub open spec fn spec_update_ind(pre: zend_array, post: zend_array, k: HashKey, v: zval, idx: int) -> bool {
        &&& post.gc == pre.gc
        &&& post.u == pre.u
        &&& post.pDestructor == pre.pDestructor
        &&& post.nNextFreeElement == pre.nNextFreeElement
        &&& post.nInternalPointer == pre.nInternalPointer
        &&& if pre.has_key(k) {
            let i = pre.index_of_key(k);
            let b = pre.arData@[i];
            &&& idx == i
            &&& post.nNumUsed == pre.nNumUsed
            &&& post.nNumOfElements == pre.nNumOfElements
            &&& post.nTableSize == pre.nTableSize
            &&& post.nTableMask == pre.nTableMask
            &&& post.arData@.len() == pre.arData@.len()
            &&& (forall|j: int|
                0 <= j < pre.arData@.len() && j != i ==> post.arData@[j] == pre.arData@[j])
            &&& post.arData@[i].h == b.h
            &&& post.arData@[i].key == b.key
            &&& if b.val.type_of() == IS_INDIRECT {
                &&& post.arData@[i].val.type_info == b.val.type_info
                &&& post.arData@[i].val.u2 == b.val.u2
                &&& (post.arData@[i].val.value matches zend_value::Indirect(t) && *t == v)
            } else {
                post.arData@[i].val == v
            }
        } else {
            &&& idx == pre.arData@.len()
            &&& post.nNumUsed == pre.nNumUsed + 1
            &&& post.nNumOfElements == pre.nNumOfElements + 1
            &&& post.nTableSize == (if pre.nNumUsed == pre.nTableSize {
                2 * pre.nTableSize
            } else {
                pre.nTableSize as int
            })
            &&& post.nTableMask == post.nTableSize - 1
            &&& post.arData@.len() == pre.arData@.len() + 1
            &&& (forall|j: int|
                0 <= j < pre.arData@.len() ==> post.arData@[j] == pre.arData@[j])
            &&& post.arData@[idx].val == v
            &&& post.arData@[idx].key_of() == k
            &&& post.arData@[idx].live()
        }
    }

    /// Insert-or-update under byte-string key bytes, with the resolving
    /// update rule (an existing indirect slot is written through).  Returns
    /// the storage index of the written slot.
    pub fn str_update_ind(&mut self, key: &[u8], val: zval) -> (idx: usize)
        requires
            old(self).wf(),
            val.wf(),
            val.type_of() != IS_UNDEF,
            old(self).room_for(HashKey::Str(key@)),
            key@.len() < usize::MAX,
        ensures
            final(self).wf(),
            Self::spec_update_ind(*old(self), *final(self), HashKey::Str(key@), val, idx as int),
            final(self).has_key(HashKey::Str(key@)),
            final(self).index_of_key(HashKey::Str(key@)) == idx as int,
    {
        let ghost pre = *self;
        let ghost k = HashKey::Str(key@);
        match self.find_pos_bytes(key) {
            Some(i) => {
                let b = &mut self.arData[i];
                if b.val.get_type() as zend_type == IS_INDIRECT {
                    b.val.value = zend_value::Indirect(Box::new(val));
                } else {
                    b.val = val;
                }
                proof {
                    lemma_count_live_update(pre.arData@, i as int, self.arData@[i as int]);
                    assert(self.arData@ =~= pre.arData@.update(
                        i as int,
                        self.arData@[i as int],
                    ));
                    assert(self.arData@[i as int].live());
                    assert(self.arData@[i as int].key_of() == k);
                    crate::zend::types::lemma_key_index(*self, k, i as int);
                }
                i
            },
            None => {
                if self.nNumUsed == self.nTableSize {
                    proof {
                        assert(spec_is_pow2((2 * self.nTableSize) as u32)) by {
                            assert(((2 * self.nTableSize) as u32) % 2 == 0);
                            assert(((2 * self.nTableSize) as u32) / 2 == self.nTableSize);
                        }
                    }
                    self.nTableSize = self.nTableSize * 2;
                    self.nTableMask = self.nTableSize - 1;
                }
                let persistent = self.u & HASH_FLAG_PERSISTENT != 0;
                let mut ks = zend_string::init(key, persistent);
                let h = ks.hash_val();
                let b = Bucket { val, h, key: Some(Box::new(ks)) };
                proof {
                    lemma_count_live_bounds(pre.arData@);
                }
                self.arData.push(b);
                self.nNumUsed = self.nNumUsed + 1;
                self.nNumOfElements = self.nNumOfElements + 1;
                let idx = (self.nNumUsed - 1) as usize;
                proof {
                    lemma_count_live_push(pre.arData@, self.arData@.last());
                    assert(self.arData@[idx as int].key_of() == k);
                    assert(self.arData@[idx as int].live());
                    assert forall|j: int|
                        0 <= j < idx as int implies !((#[trigger] self.arData@[j]).live()
                        && self.arData@[j].key_of() == k) by {
                        assert(self.arData@[j] == pre.arData@[j]);
                    }
                    crate::zend::types::lemma_key_index(*self, k, idx as int);
                }
                idx
            },
        }
    }

    /// Insert-or-update under a string handle; the handle's cached hash is
    /// computed on the way.  Returns the storage index of the written slot.
    pub fn update_ind(&mut self, key: zend_string, val: zval) -> (idx: usize)
        requires
            old(self).wf(),
            key.buf_wf(),
            val.wf(),
            val.type_of() != IS_UNDEF,
            old(self).room_for(HashKey::Str(key.content())),
        ensures
            final(self).wf(),
            Self::spec_update_ind(
                *old(self),
                *final(self),
                HashKey::Str(key.content()),
                val,
                idx as int,
            ),
            final(self).has_key(HashKey::Str(key.content())),
            final(self).index_of_key(HashKey::Str(key.content())) == idx as int,
    {
        let bytes_len = key.len;
        let bytes_vec = key.val;
        let total = bytes_vec.len();
        proof {
            assert(bytes_vec@.subrange(0, bytes_len as int) == key.content());
            assert(total == bytes_len + 1);
        }
        let bytes = slice_take(bytes_vec.as_slice(), bytes_len);
        self.str_update_ind(bytes, val)
    }

    /// The append-without-key counter after an append under index `h`: it
    /// moves past `h` when `h` is at or beyond it, saturating at the
    /// largest signed index; an index beyond the signed range leaves it
    /// alone.  It never decreases.
    pub open spec fn spec_next_free(next: i64, h: zend_ulong) -> int {
        if h < 0x8000_0000_0000_0000 && h as int >= next as int {
            if h < 0x7fff_ffff_ffff_ffff {
                h as int + 1
            } else {
                0x7fff_ffff_ffff_ffff
            }
        } else {
            next as int
        }
    }

    /// Relation between the table before and after an insert-or-update of
    /// value `v` under integer index `h` at storage index `idx` (no
    /// indirect resolution on the plain integer path).
    pub open spec fn spec_index_update(pre: zend_array, post: zend_array, h: zend_ulong, v: zval, idx: int) -> bool {
        &&& post.gc == pre.gc
        &&& post.u == pre.u
        &&& post.pDestructor == pre.pDestructor
        &&& post.nInternalPointer == pre.nInternalPointer
        &&& if pre.has_key(HashKey::Int(h)) {
            let i = pre.index_of_key(HashKey::Int(h));
            let b = pre.arData@[i];
            &&& idx == i
            &&& post.nNumUsed == pre.nNumUsed
            &&& post.nNumOfElements == pre.nNumOfElements
            &&& post.nTableSize == pre.nTableSize
            &&& post.nTableMask == pre.nTableMask
            &&& post.nNextFreeElement == pre.nNextFreeElement
            &&& post.arData@.len() == pre.arData@.len()
            &&& (forall|j: int|
                0 <= j < pre.arData@.len() && j != i ==> post.arData@[j] == pre.arData@[j])
            &&& post.arData@[i].h == b.h
            &&& post.arData@[i].key == b.key
            &&& post.arData@[i].val == v
        } else {
            &&& idx == pre.arData@.len()
            &&& post.nNumUsed == pre.nNumUsed + 1
            &&& post.nNumOfElements == pre.nNumOfElements + 1
            &&& post.nTableSize == (if pre.nNumUsed == pre.nTableSize {
                2 * pre.nTableSize
            } else {
                pre.nTableSize as int
            })
            &&& post.nTableMask == post.nTableSize - 1
            &&& post.nNextFreeElement == Self::spec_next_free(pre.nNextFreeElement, h)
            &&& post.arData@.len() == pre.arData@.len() + 1
            &&& (forall|j: int|
                0 <= j < pre.arData@.len() ==> post.arData@[j] == pre.arData@[j])
            &&& post.arData@[idx].val == v
            &&& post.arData@[idx].h == h
            &&& post.arData@[idx].key is None
            &&& post.arData@[idx].live()
        }
    }

    /// Insert-or-update under an integer index.  Returns the storage index
    /// of the written slot.
    pub fn index_update(&mut self, h: zend_ulong, val: zval) -> (idx: usize)
        requires
            old(self).wf(),
            val.wf(),
            val.type_of() != IS_UNDEF,
            old(self).room_for(HashKey::Int(h)),
        ensures
            final(self).wf(),
            Self::spec_index_update(*old(self), *final(self), h, val, idx as int),
            final(self).has_key(HashKey::Int(h)),
            final(self).index_of_key(HashKey::Int(h)) == idx as int,
    {
        let ghost pre = *self;
        let ghost k = HashKey::Int(h);
        match self.find_pos_int(h) {
            Some(i) => {
                let b = &mut self.arData[i];
                b.val = val;
                proof {
                    lemma_count_live_update(pre.arData@, i as int, self.arData@[i as int]);
                    assert(self.arData@[i as int].live());
                    assert(self.arData@[i as int].key_of() == k);
                    crate::zend::types::lemma_key_index(*self, k, i as int);
                }
                i
            },
            None => {
                if self.nNumUsed == self.nTableSize {
                    proof {
                        assert(spec_is_pow2((2 * self.nTableSize) as u32)) by {
                            assert(((2 * self.nTableSize) as u32) % 2 == 0);
                            assert(((2 * self.nTableSize) as u32) / 2 == self.nTableSize);
                        }
                    }
                    self.nTableSize = self.nTableSize * 2;
                    self.nTableMask = self.nTableSize - 1;
                }
                let b = Bucket { val, h, key: None };
                proof {
                    lemma_count_live_bounds(pre.arData@);
                }
                self.arData.push(b);
                self.nNumUsed = self.nNumUsed + 1;
                self.nNumOfElements = self.nNumOfElements + 1;
                if h < 0x8000_0000_0000_0000 {
                    let hl = h as i64;
                    if hl >= self.nNextFreeElement {
                        self.nNextFreeElement = if h < 0x7fff_ffff_ffff_ffff {
                            hl + 1
                        } else {
                            hl
                        };
                    }
                }
                let idx = (self.nNumUsed - 1) as usize;
                proof {
                    lemma_count_live_push(pre.arData@, self.arData@.last());
                    assert(self.arData@[idx as int].key_of() == k);
                    assert(self.arData@[idx as int].live());
                    assert forall|j: int|
                        0 <= j < idx as int implies !((#[trigger] self.arData@[j]).live()
                        && self.arData@[j].key_of() == k) by {
                        assert(self.arData@[j] == pre.arData@[j]);
                    }
                    crate::zend::types::lemma_key_index(*self, k, idx as int);
                }
                idx
            },
        }
    }

    /// Appends a value under the next implicit integer key.  Returns the
    /// storage index of the new slot.
    pub fn next_index_insert(&mut self, val: zval) -> (idx: usize)
        requires
            old(self).wf(),
            val.wf(),
            val.type_of() != IS_UNDEF,
            old(self).nNextFreeElement < 0x7fff_ffff_ffff_ffff,
            old(self).nNumUsed < old(self).nTableSize || old(self).nTableSize <= 0x4000_0000,
        ensures
            final(self).wf(),
            Self::spec_index_update(
                *old(self),
                *final(self),
                old(self).nNextFreeElement as zend_ulong,
                val,
                idx as int,
            ),
            !old(self).has_key(HashKey::Int(old(self).nNextFreeElement as zend_ulong)),
            final(self).nNextFreeElement == old(self).nNextFreeElement + 1,
            final(self).has_key(HashKey::Int(old(self).nNextFreeElement as zend_ulong)),
    {
        let h = self.nNextFreeElement as zend_ulong;
        proof {
            let k = HashKey::Int(h);
            if self.has_key(k) {
                let j = choose|j: int|
                    0 <= j < self.arData@.len() && (#[trigger] self.arData@[j]).live()
                        && self.arData@[j].key_of() == k;
                assert(self.arData@[j].key is None && self.arData@[j].h == h);
            }
        }
        self.index_update(h, val)
    }

    /// Relation between the table before and after deleting key `k`: the
    /// slot is tombstoned in place (value undefined, key released), the
    /// element count drops by one, and nothing else moves.
    pub open spec fn spec_del(pre: zend_array, post: zend_array, k: HashKey) -> bool {
        if pre.has_key(k) {
            let i = pre.index_of_key(k);
            &&& post.gc == pre.gc
            &&& post.u == pre.u
            &&& post.pDestructor == pre.pDestructor
            &&& post.nInternalPointer == pre.nInternalPointer
            &&& post.nNextFreeElement == pre.nNextFreeElement
            &&& post.nNumUsed == pre.nNumUsed
            &&& post.nNumOfElements == pre.nNumOfElements - 1
            &&& post.nTableSize == pre.nTableSize
            &&& post.nTableMask == pre.nTableMask
            &&& post.arData@.len() == pre.arData@.len()
            &&& (forall|j: int|
                0 <= j < pre.arData@.len() && j != i ==> post.arData@[j] == pre.arData@[j])
            &&& post.arData@[i].h == pre.arData@[i].h
            &&& post.arData@[i].key is None
            &&& post.arData@[i].val == zval::spec_default()
            &&& !post.arData@[i].live()
        } else {
            post == pre
        }
    }

    /// Tombstones the slot at storage index `i`: the value discriminant
    /// becomes undefined and the key handle is released; `nNumUsed` keeps
    /// counting the slot.
    fn tombstone_at(&mut self, i: usize)
        requires
            old(self).wf(),
            i < old(self).arData@.len(),
            old(self).arData@[i as int].live(),
        ensures
            final(self).wf(),
            final(self).gc == old(self).gc,
            final(self).u == old(self).u,
            final(self).pDestructor == old(self).pDestructor,
            final(self).nInternalPointer == old(self).nInternalPointer,
            final(self).nNextFreeElement == old(self).nNextFreeElement,
            final(self).nNumUsed == old(self).nNumUsed,
            final(self).nNumOfElements == old(self).nNumOfElements - 1,
            final(self).nTableSize == old(self).nTableSize,
            final(self).nTableMask == old(self).nTableMask,
            final(self).arData@.len() == old(self).arData@.len(),
            (forall|j: int|
                0 <= j < old(self).arData@.len() && j != i as int ==> final(self).arData@[j] == old(
                    self,
                ).arData@[j]),
            final(self).arData@[i as int].h == old(self).arData@[i as int].h,
            final(self).arData@[i as int].key is None,
            final(self).arData@[i as int].val == zval::spec_default(),
            !final(self).arData@[i as int].live(),
    {
        let ghost pre = *self;
        let undef: zval = Default::default();
        let b = &mut self.arData[i];
        b.val = undef;
        b.key = None;
        proof {
            lemma_count_live_update(pre.arData@, i as int, self.arData@[i as int]);
            lemma_count_live_bounds(self.arData@);
        }
        self.nNumOfElements = self.nNumOfElements - 1;
    }

    /// After tombstoning the slot that carried `k`, no slot carries `k`.
    proof fn lemma_tombstone_not_has_key(pre: zend_array, post: zend_array, k: HashKey, i: int)
        requires
            pre.wf(),
            0 <= i < pre.arData@.len(),
            pre.arData@[i].live(),
            pre.arData@[i].key_of() == k,
            post.arData@.len() == pre.arData@.len(),
            !post.arData@[i].live(),
            forall|j: int|
                0 <= j < pre.arData@.len() && j != i ==> post.arData@[j] == pre.arData@[j],
        ensures
            !post.has_key(k),
    {
        if post.has_key(k) {
            let j = choose|j: int|
                0 <= j < post.arData@.len() && (#[trigger] post.arData@[j]).live()
                    && post.arData@[j].key_of() == k;
            assert(j != i);
            assert(pre.arData@[j].live() && pre.arData@[j].key_of() == k);
            if i < j {
                assert(pre.arData@[i].key_of() != pre.arData@[j].key_of());
            } else {
                assert(pre.arData@[j].key_of() != pre.arData@[i].key_of());
            }
        }
    }

    /// Deletes the entry under byte-string key bytes by tombstoning its
    /// slot; reports failure when there is no such entry.
    pub fn str_del(&mut self, key: &[u8]) -> (r: ZEND_RESULT_CODE)
        requires
            old(self).wf(),
        ensures
            final(self).wf(),
            Self::spec_del(*old(self), *final(self), HashKey::Str(key@)),
            (r == ZEND_RESULT_CODE::SUCCESS <==> old(self).has_key(HashKey::Str(key@))),
            !final(self).has_key(HashKey::Str(key@)),
    {
        let ghost pre = *self;
        match self.find_pos_bytes(key) {
            Some(i) => {
                self.tombstone_at(i);
                proof {
                    Self::lemma_tombstone_not_has_key(
                        pre,
                        *self,
                        HashKey::Str(key@),
                        i as int,
                    );
                }
                ZEND_RESULT_CODE::SUCCESS
            },
            None => {
                proof {
                    if self.has_key(HashKey::Str(key@)) {
                        assert(pre.has_key(HashKey::Str(key@)));
                    }
                }
                ZEND_RESULT_CODE::FAILURE
            },
        }
    }

    /// Deletes the entry under a string handle.
    pub fn del(&mut self, key: &zend_string) -> (r: ZEND_RESULT_CODE)
        requires
            old(self).wf(),
            key.buf_wf(),
        ensures
            final(self).wf(),
            Self::spec_del(*old(self), *final(self), HashKey::Str(key.content())),
            (r == ZEND_RESULT_CODE::SUCCESS <==> old(self).has_key(HashKey::Str(key.content()))),
            !final(self).has_key(HashKey::Str(key.content())),
    {
        let bytes = slice_take(key.val.as_slice(), key.len);
        self.str_del(bytes)
    }

    /// Deletes the entry under an integer index.
    pub fn index_del(&mut self, h: zend_ulong) -> (r: ZEND_RESULT_CODE)
        requires
            old(self).wf(),
        ensures
            final(self).wf(),
            Self::spec_del(*old(self), *final(self), HashKey::Int(h)),
            (r == ZEND_RESULT_CODE::SUCCESS <==> old(self).has_key(HashKey::Int(h))),
            !final(self).has_key(HashKey::Int(h)),
    {
        let ghost pre = *self;
        match self.find_pos_int(h) {
            Some(i) => {
                self.tombstone_at(i);
                proof {
                    Self::lemma_tombstone_not_has_key(pre, *self, HashKey::Int(h), i as int);
                }
                ZEND_RESULT_CODE::SUCCESS
            },
            None => ZEND_RESULT_CODE::FAILURE,
        }
    }

    /// Empties the table: all storage is dropped, every count restarts,
    /// the capacity and configuration stay.
    pub fn clean(&mut self)
        ensures
            final(self).gc == old(self).gc,
            final(self).u == old(self).u,
            final(self).pDestructor == old(self).pDestructor,
            final(self).nTableSize == old(self).nTableSize,
            final(self).nTableMask == old(self).nTableMask,
            final(self).arData@.len() == 0,
            final(self).nNumUsed == 0,
            final(self).nNumOfElements == 0,
            final(self).nNextFreeElement == 0,
            final(self).nInternalPointer == 0,
            (old(self).wf() ==> final(self).wf()),
            forall|k: HashKey| !(#[trigger] final(self).has_key(k)),
    {
        self.arData = Vec::new();
        self.nNumUsed = 0;
        self.nNumOfElements = 0;
        self.nNextFreeElement = 0;
        self.nInternalPointer = 0;
    }

    /// The used storage slots, in insertion order (tombstones included).
    pub fn buckets(&self) -> (r: &Vec<Bucket>)
        ensures
            *r == self.arData,
    {
        &self.arData
    }

    /// Whether the traversal position still points into the used storage.
    pub fn has_more_elements_ex(&self, pos: u32) -> (r: ZEND_RESULT_CODE)
        ensures
            (r == ZEND_RESULT_CODE::SUCCESS <==> pos < self.nNumUsed),
    {
        if pos < self.nNumUsed {
            ZEND_RESULT_CODE::SUCCESS
        } else {
            ZEND_RESULT_CODE::FAILURE
        }
    }

    /// A fresh table.  The requested minimum is rounded up to the tracked
    /// power-of-two capacity (at least 8); the header and the flags word
    /// record the allocation domain.
    pub fn init(n_size: u32, destructor: DtorFuncT, persistent: bool) -> (ht: zend_array)
        requires
            n_size <= 0x8000_0000,
        ensures
            ht.wf(),
            ht.arData@.len() == 0,
            ht.nNumUsed == 0,
            ht.nNumOfElements == 0,
            ht.nNextFreeElement == 0,
            ht.pDestructor == destructor,
            8 <= ht.nTableSize,
            n_size <= ht.nTableSize,
            ht.nTableSize == 8 || ht.nTableSize / 2 < n_size,
            ht.gc.refcount == 1,
            ht.gc.spec_type_() == IS_ARRAY as zend_uchar,
            (persistent <==> ht.gc.spec_flags() & (GC_PERSISTENT as u8) != 0),
            (persistent <==> ht.u & HASH_FLAG_PERSISTENT != 0),
            forall|k: HashKey| !(#[trigger] ht.has_key(k)),
    {
        Self::init_ex(n_size, destructor, persistent, true)
    }

    /// As `init`, with the apply-protection bit under the caller's control.
    pub fn init_ex(n_size: u32, destructor: DtorFuncT, persistent: bool, apply_protection: bool)
        -> (ht: zend_array)
        requires
            n_size <= 0x8000_0000,
        ensures
            ht.wf(),
            ht.arData@.len() == 0,
            ht.nNumUsed == 0,
            ht.nNumOfElements == 0,
            ht.nNextFreeElement == 0,
            ht.pDestructor == destructor,
            8 <= ht.nTableSize,
            n_size <= ht.nTableSize,
            ht.nTableSize == 8 || ht.nTableSize / 2 < n_size,
            ht.gc.refcount == 1,
            ht.gc.spec_type_() == IS_ARRAY as zend_uchar,
            (persistent <==> ht.gc.spec_flags() & (GC_PERSISTENT as u8) != 0),
            (persistent <==> ht.u & HASH_FLAG_PERSISTENT != 0),
            (apply_protection <==> ht.u & HASH_FLAG_APPLY_PROTECTION != 0),
            forall|k: HashKey| !(#[trigger] ht.has_key(k)),
    {
        let gc_flags: u8 = if persistent {
            GC_PERSISTENT as u8
        } else {
            GC_COLLECTABLE as u8
        };
        proof {
            assert(0x80u8 & 0x80u8 != 0u8) by (bit_vector);
            assert(0x10u8 & 0x80u8 == 0u8) by (bit_vector);
        }
        let gc = zend_refcounted_h::fresh(IS_ARRAY as u8, gc_flags);
        let mut u: u32 = HASH_FLAG_STATIC_KEYS;
        if persistent {
            u = u | HASH_FLAG_PERSISTENT;
        }
        if apply_protection {
            u = u | HASH_FLAG_APPLY_PROTECTION;
        }
        proof {
            let uu = u;
            assert((0x10u32 & 0x01 == 0) && (0x10u32 & 0x02 == 0) && (0x11u32 & 0x01 != 0) && (
            0x11u32 & 0x02 == 0) && (0x12u32 & 0x01 == 0) && (0x12u32 & 0x02 != 0) && (0x13u32
                & 0x01 != 0) && (0x13u32 & 0x02 != 0)) by (bit_vector);
            assert(0x10u32 | 0x01 == 0x11 && 0x10u32 | 0x02 == 0x12 && 0x11u32 | 0x02 == 0x13)
                by (bit_vector);
        }
        let n_table_size = check_size(n_size);
        let ht = zend_array {
            gc,
            u,
            nTableMask: n_table_size - 1,
            arData: Vec::new(),
            nNumUsed: 0,
            nNumOfElements: 0,
            nTableSize: n_table_size,
            nInternalPointer: 0,
            nNextFreeElement: 0,
            pDestructor: destructor,
        };
        proof {
            assert(count_live(ht.arData@) == 0);
        }
        ht
    }
}

} // verus!
