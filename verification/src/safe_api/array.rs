//! The safe ordered-table API: a checked wrapper, a builder, string-keyed
//! indexing, and forward iteration that skips tombstones and resolves
//! indirect slots.
use vstd::prelude::*;
use crate::safe_api::string::ZString;
use crate::safe_api::zval::Zval;
use crate::zend::types::{
    zend_array, zend_value, zval, Bucket, DtorFunc, DtorFuncT, HashKey, ZEND_RESULT_CODE,
    IS_INDIRECT, IS_UNDEF,
};

verus! {

/// A key for the safe table API: an owned string handle or plain key
/// bytes.  Integer indexing goes through the raw table directly.
#[derive(Debug)]
pub enum ArrayIndex {
    ZString(ZString),
    Str(Vec<u8>),
}

impl ArrayIndex {
    /// The key the index stands for.
    pub open spec fn key(&self) -> HashKey {
        match self {
            ArrayIndex::ZString(s) => HashKey::Str(s.0.content()),
            ArrayIndex::Str(v) => HashKey::Str(v@),
        }
    }

    /// A usable index: a well-formed handle, or bytes short enough to
    /// become one.
    pub open spec fn wf(&self) -> bool {
        match self {
            ArrayIndex::ZString(s) => s.0.buf_wf() && s.0.hash_ok(),
            ArrayIndex::Str(v) => v@.len() < usize::MAX,
        }
    }
}

impl From<ZString> for ArrayIndex {
    fn from(from: ZString) -> (r: ArrayIndex)
        ensures
            r == ArrayIndex::ZString(from),
    {
        ArrayIndex::ZString(from)
    }
}

impl vstd::std_specs::convert::FromSpecImpl<ZString> for ArrayIndex {
    open spec fn obeys_from_spec() -> bool {
        true
    }

    open spec fn from_spec(from: ZString) -> ArrayIndex {
        ArrayIndex::ZString(from)
    }
}

/// The common indexing surface of everything that can act as a table: the
/// wrapped table itself, and a tagged value holding one.
pub trait ArrayApi {
    /// The table the operations act on.
    spec fn table(&self) -> zend_array;

    /// Whether the view can be indexed at all.
    spec fn indexable(&self) -> bool;

    /// Lookup with indirect resolution; a slot resolving to an undefined
    /// value reads as absent.
    fn get<'a>(&'a self, index: &ArrayIndex) -> (r: Option<&'a zval>)
        requires
            self.indexable(),
            index.wf(),
        ensures
            (match r {
                Some(v) => self.table().lookup_ind(index.key()) == Some(*v),
                None => self.table().lookup_ind(index.key()) is None,
            }),
    ;

    /// Insert-or-update with the resolving update rule; returns the
    /// storage index of the written slot.
    fn insert(&mut self, index: ArrayIndex, val: Zval) -> (idx: usize)
        requires
            old(self).indexable(),
            index.wf(),
            val.0.wf(),
            val.0.type_of() != IS_UNDEF,
            old(self).table().room_for(index.key()),
        ensures
            final(self).indexable(),
            zend_array::spec_update_ind(
                old(self).table(),
                final(self).table(),
                index.key(),
                val.0,
                idx as int,
            ),
            final(self).table().has_key(index.key()),
    ;

    /// Existence under the same resolution rules as `get`.
    fn key_exists(&self, index: &ArrayIndex) -> (r: bool)
        requires
            self.indexable(),
            index.wf(),
        ensures
            r <==> (self.table().lookup_ind(index.key()) is Some),
    ;

    /// Tombstones the slot under the key; fails when there is none.
    fn delete(&mut self, index: &ArrayIndex) -> (r: ZEND_RESULT_CODE)
        requires
            old(self).indexable(),
            index.wf(),
        ensures
            final(self).indexable(),
            zend_array::spec_del(old(self).table(), final(self).table(), index.key()),
            (r == ZEND_RESULT_CODE::SUCCESS <==> old(self).table().has_key(index.key())),
            !final(self).table().has_key(index.key()),
    ;

    /// A forward iterator over the visible entries, in insertion order.
    fn buckets_iter<'a>(&'a self) -> (it: BucketsIter<'a>)
        requires
            self.indexable(),
        ensures
            it.buckets@ == self.table().arData@,
            it.idx == 0,
    ;
}

/// Configuration for a fresh table: the allocation domain, the minimum
/// capacity (rounded up to a power of two, at least 8), and the value
/// destructor the host should run on removed entries.
#[derive(Clone, Copy, PartialEq, Eq, Structural, Debug)]
pub struct ArrayBuilder {
    pub persistent: bool,
    /// will be raised to a power of two no less than 8
    pub initial_min_size: u32,
    pub value_destructor: DtorFuncT,
}

impl ArrayBuilder {
    pub fn new() -> (b: ArrayBuilder)
        ensures
            b.persistent == false,
            b.initial_min_size == 0,
            b.value_destructor == Some(DtorFunc::ZvalPtrDtor),
    {
        ArrayBuilder { persistent: false, initial_min_size: 0, value_destructor: Some(DtorFunc::ZvalPtrDtor) }
    }

    pub fn with_persistent(self, persistent: bool) -> (b: ArrayBuilder)
        ensures
            b == (ArrayBuilder { persistent, ..self }),
    {
        ArrayBuilder { persistent, ..self }
    }

    pub fn with_initial_min_size(self, size: u32) -> (b: ArrayBuilder)
        ensures
            b == (ArrayBuilder { initial_min_size: size, ..self }),
    {
        ArrayBuilder { initial_min_size: size, ..self }
    }

    pub fn with_value_destructor(self, destructor: DtorFuncT) -> (b: ArrayBuilder)
        ensures
            b == (ArrayBuilder { value_destructor: destructor, ..self }),
    {
        ArrayBuilder { value_destructor: destructor, ..self }
    }

    pub fn build(self) -> (a: Array)
        requires
            self.initial_min_size <= 0x8000_0000,
        ensures
            a.0.wf(),
            a.0.arData@.len() == 0,
            a.0.nNumOfElements == 0,
            a.0.pDestructor == self.value_destructor,
            self.initial_min_size <= a.0.nTableSize,
            a.0.nTableSize == 8 || a.0.nTableSize / 2 < self.initial_min_size,
            (self.persistent <==> a.0.gc.spec_flags() & 0x80u8 != 0),
            forall|k: HashKey| !(#[trigger] a.0.has_key(k)),
    {
        Array::init(self.initial_min_size, self.value_destructor, self.persistent)
    }
}

/// The checked wrapper over the raw ordered table.
#[derive(Debug)]
pub struct Array(pub zend_array);

impl Array {
    /// A fresh table with the builder's defaults.
    pub fn new() -> (a: Array)
        ensures
            a.0.wf(),
            a.0.arData@.len() == 0,
            a.0.nNumOfElements == 0,
            a.0.nTableSize == 8,
            a.0.pDestructor == Some(DtorFunc::ZvalPtrDtor),
            forall|k: HashKey| !(#[trigger] a.0.has_key(k)),
    {
        ArrayBuilder::new().build()
    }

    /// A fresh table with the given minimum capacity, destructor, and
    /// allocation domain.
    pub fn init(size: u32, destructor: DtorFuncT, persistent: bool) -> (a: Array)
        requires
            size <= 0x8000_0000,
        ensures
            a.0.wf(),
            a.0.arData@.len() == 0,
            a.0.nNumOfElements == 0,
            a.0.pDestructor == destructor,
            size <= a.0.nTableSize,
            a.0.nTableSize == 8 || a.0.nTableSize / 2 < size,
            (persistent <==> a.0.gc.spec_flags() & 0x80u8 != 0),
            forall|k: HashKey| !(#[trigger] a.0.has_key(k)),
    {
        Array(zend_array::init(size, destructor, persistent))
    }

    /// Views the raw table.
    pub fn raw(&self) -> (r: &zend_array)
        ensures
            *r == self.0,
    {
        &self.0
    }

    /// Takes a raw table into the wrapper; a bitwise move.
    pub fn read_into_safe(raw: zend_array) -> (a: Array)
        ensures
            a.0 == raw,
    {
        Array(raw)
    }
}

impl ArrayApi for Array {
    open spec fn table(&self) -> zend_array {
        self.0
    }

    open spec fn indexable(&self) -> bool {
        self.0.wf()
    }

    fn get<'a>(&'a self, index: &ArrayIndex) -> (r: Option<&'a zval>) {
        match index {
            ArrayIndex::ZString(s) => self.0.find_ind(&s.0),
            ArrayIndex::Str(v) => self.0.str_find_ind(v.as_slice()),
        }
    }

    fn insert(&mut self, index: ArrayIndex, val: Zval) -> (idx: usize) {
        match index {
            ArrayIndex::ZString(s) => self.0.update_ind(s.0, val.0),
            ArrayIndex::Str(v) => self.0.str_update_ind(v.as_slice(), val.0),
        }
    }

    fn key_exists(&self, index: &ArrayIndex) -> (r: bool) {
        match index {
            ArrayIndex::ZString(s) => self.0.exists_ind(&s.0),
            ArrayIndex::Str(v) => self.0.str_exists_ind(v.as_slice()),
        }
    }

    fn delete(&mut self, index: &ArrayIndex) -> (r: ZEND_RESULT_CODE) {
        match index {
            ArrayIndex::ZString(s) => self.0.del(&s.0),
            ArrayIndex::Str(v) => self.0.str_del(v.as_slice()),
        }
    }

    fn buckets_iter<'a>(&'a self) -> (it: BucketsIter<'a>) {
        BucketsIter::from_raw(&self.0)
    }
}

impl ArrayApi for Zval {
    open spec fn table(&self) -> zend_array {
        match self.0.value {
            zend_value::Arr(a) => *a,
            _ => arbitrary(),
        }
    }

    open spec fn indexable(&self) -> bool {
        self.0.wf() && self.0.type_of() == crate::zend::types::IS_ARRAY
    }

    fn get<'a>(&'a self, index: &ArrayIndex) -> (r: Option<&'a zval>) {
        match self.0.as_array() {
            Some(a) => match index {
                ArrayIndex::ZString(s) => a.find_ind(&s.0),
                ArrayIndex::Str(v) => a.str_find_ind(v.as_slice()),
            },
            None => unreached(),
        }
    }

    fn insert(&mut self, index: ArrayIndex, val: Zval) -> (idx: usize) {
        match self.0.as_array_mut() {
            Some(a) => match index {
                ArrayIndex::ZString(s) => a.update_ind(s.0, val.0),
                ArrayIndex::Str(v) => a.str_update_ind(v.as_slice(), val.0),
            },
            None => unreached(),
        }
    }

    fn key_exists(&self, index: &ArrayIndex) -> (r: bool) {
        match self.0.as_array() {
            Some(a) => match index {
                ArrayIndex::ZString(s) => a.exists_ind(&s.0),
                ArrayIndex::Str(v) => a.str_exists_ind(v.as_slice()),
            },
            None => unreached(),
        }
    }

    fn delete(&mut self, index: &ArrayIndex) -> (r: ZEND_RESULT_CODE) {
        match self.0.as_array_mut() {
            Some(a) => match index {
                ArrayIndex::ZString(s) => a.del(&s.0),
                ArrayIndex::Str(v) => a.str_del(v.as_slice()),
            },
            None => unreached(),
        }
    }

    fn buckets_iter<'a>(&'a self) -> (it: BucketsIter<'a>) {
        match self.0.as_array() {
            Some(a) => BucketsIter::from_raw(a),
            None => unreached(),
        }
    }
}

/// The index of the first visible slot at or after `from`, if any.
pub open spec fn first_visible_from(s: Seq<Bucket>, from: int) -> Option<int>
    decreases s.len() - from,
{
    if !(0 <= from < s.len()) {
        None
    } else if s[from].visible() {
        Some(from)
    } else {
        first_visible_from(s, from + 1)
    }
}

/// Scans the storage for the first visible slot at or after `from`.
fn seq_find_visible(buckets: &Vec<Bucket>, from: usize) -> (r: Option<usize>)
    requires
        forall|i: int| 0 <= i < buckets@.len() ==> (#[trigger] buckets@[i]).val.wf(),
    ensures
        (match r {
            Some(i) => first_visible_from(buckets@, from as int) == Some(i as int) && from <= i
                < buckets@.len() && buckets@[i as int].visible(),
            None => first_visible_from(buckets@, from as int) is None,
        }),
{
    let n = buckets.len();
    let mut i = from;
    while i < n
        invariant
            from <= i,
            n == buckets@.len(),
            forall|j: int| 0 <= j < buckets@.len() ==> (#[trigger] buckets@[j]).val.wf(),
            first_visible_from(buckets@, from as int) == first_visible_from(buckets@, i as int),
        decreases n - i,
    {
        let b = &buckets[i];
        if b.get_val(true).is_some() {
            proof {
                assert(buckets@[i as int].visible());
            }
            return Some(i);
        }
        proof {
            assert(!buckets@[i as int].visible());
            assert(first_visible_from(buckets@, i as int) == first_visible_from(
                buckets@,
                i + 1,
            ));
        }
        i = i + 1;
    }
    None
}

/// A forward iterator over a table's storage: yields the visible slots in
/// insertion order, skipping tombstones and slots that resolve to an
/// undefined value.  Mutating the table while an iterator is alive is the
/// caller's responsibility to avoid; the borrow rules enforce it here.
pub struct BucketsIter<'a> {
    pub buckets: &'a Vec<Bucket>,
    pub idx: usize,
}

impl<'a> BucketsIter<'a> {
    /// Iteration reads every slot's value, so all must be well-formed.
    pub open spec fn wf(self) -> bool {
        forall|i: int| 0 <= i < self.buckets@.len() ==> (#[trigger] self.buckets@[i]).val.wf()
    }

    /// Starts at the first storage slot of the given table.
    pub fn from_raw(raw: &'a zend_array) -> (it: Self)
        ensures
            it.buckets@ == raw.arData@,
            it.idx == 0,
    {
        BucketsIter { buckets: raw.buckets(), idx: 0 }
    }

    /// The next visible slot, if any.
    pub fn next(&mut self) -> (r: Option<&'a Bucket>)
        requires
            old(self).wf(),
        ensures
            final(self).buckets == old(self).buckets,
            final(self).wf(),
            (match r {
                Some(b) => (first_visible_from(old(self).buckets@, old(self).idx as int)
                    matches Some(i) && *b == old(self).buckets@[i] && final(self).idx == i + 1
                    && b.visible()),
                None => first_visible_from(old(self).buckets@, old(self).idx as int) is None
                    && final(self).idx == old(self).buckets@.len(),
            }),
    {
        let n = self.buckets.len();
        match seq_find_visible(self.buckets, self.idx) {
            Some(i) => {
                self.idx = i + 1;
                Some(&self.buckets[i])
            },
            None => {
                self.idx = self.buckets.len();
                None
            },
        }
    }
}

/// Relation of one cursor write step: slot `i` keeps its key and hash and
/// takes the written value `w` (through the indirection for an indirect
/// slot); every other slot and every table field stays.
pub open spec fn spec_cursor_step(pre: zend_array, post: zend_array, i: int, w: zval) -> bool {
    &&& post.gc == pre.gc
    &&& post.u == pre.u
    &&& post.pDestructor == pre.pDestructor
    &&& post.nNumUsed == pre.nNumUsed
    &&& post.nNumOfElements == pre.nNumOfElements
    &&& post.nTableSize == pre.nTableSize
    &&& post.nTableMask == pre.nTableMask
    &&& post.nNextFreeElement == pre.nNextFreeElement
    &&& post.nInternalPointer == pre.nInternalPointer
    &&& post.arData@.len() == pre.arData@.len()
    &&& (forall|j: int| 0 <= j < pre.arData@.len() && j != i ==> post.arData@[j] == pre.arData@[j])
    &&& post.arData@[i].h == pre.arData@[i].h
    &&& post.arData@[i].key == pre.arData@[i].key
    &&& (if pre.arData@[i].val.type_of() == IS_INDIRECT {
        post.arData@[i].val.type_info == pre.arData@[i].val.type_info && post.arData@[i].val.u2
            == pre.arData@[i].val.u2 && (post.arData@[i].val.value matches zend_value::Indirect(t)
            && *t == w)
    } else {
        post.arData@[i].val == w
    })
}

/// A forward cursor for mutating the visible slots in insertion order.
/// Verification needs the table handed to each step rather than held by
/// the cursor, so the cursor keeps only the position.
pub struct BucketsIterMut {
    pub pos: usize,
}

impl BucketsIterMut {
    pub fn from_raw() -> (it: Self)
        ensures
            it.pos == 0,
    {
        BucketsIterMut { pos: 0 }
    }

    /// Advances to the next visible slot of `arr` and hands its resolved
    /// value out for mutation: writing through the result writes the slot
    /// (or, for an indirect slot, its target) in place.
    pub fn next<'a>(&mut self, arr: &'a mut zend_array) -> (r: Option<&'a mut zval>)
        requires
            old(arr).wf(),
        ensures
            (match r {
                Some(v) => (first_visible_from(old(arr).arData@, old(self).pos as int)
                    matches Some(i) && final(self).pos == i + 1 && *v == old(arr).arData@[i].resolved() && spec_cursor_step(*old(arr), *final(arr), i, *final(v))),
                None => first_visible_from(old(arr).arData@, old(self).pos as int) is None && *final(arr) == *old(arr) && final(self).pos == old(arr).arData@.len(),
            }),
    {
        match seq_find_visible(arr.buckets(), self.pos) {
            Some(i) => {
                self.pos = i + 1;
                let b = &mut arr.arData[i];
                b.get_val_mut(true)
            },
            None => {
                self.pos = arr.arData.len();
                None
            },
        }
    }
}

/// Writing a well-formed, defined value through a cursor step keeps the
/// table invariant: the slot keeps its key, hash and liveness, every other
/// slot is untouched.
pub proof fn lemma_slot_write_wf(pre: zend_array, post: zend_array, i: int)
    requires
        pre.wf(),
        0 <= i < pre.arData@.len(),
        post.gc == pre.gc,
        post.u == pre.u,
        post.pDestructor == pre.pDestructor,
        post.nNumUsed == pre.nNumUsed,
        post.nNumOfElements == pre.nNumOfElements,
        post.nTableSize == pre.nTableSize,
        post.nTableMask == pre.nTableMask,
        post.nNextFreeElement == pre.nNextFreeElement,
        post.arData@.len() == pre.arData@.len(),
        forall|j: int| 0 <= j < pre.arData@.len() && j != i ==> post.arData@[j] == pre.arData@[j],
        post.arData@[i].h == pre.arData@[i].h,
        post.arData@[i].key == pre.arData@[i].key,
        post.arData@[i].val.wf(),
        post.arData@[i].live() == pre.arData@[i].live(),
    ensures
        post.wf(),
{
    crate::zend::hash::lemma_count_live_update(pre.arData@, i, post.arData@[i]);
    assert(post.arData@ =~= pre.arData@.update(i, post.arData@[i]));
    assert(post.arData@[i].key_of() == pre.arData@[i].key_of());
}

} // verus!
