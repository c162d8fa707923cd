//! Type tags, flag words, and the refcounted header shared by every
//! heap-allocated value kind.
//!
//! The engine's C layout overlays a `type_info` word with four packed byte
//! fields (little-endian).  The model keeps the single `u32` word as the
//! source of truth and exposes the packed fields through accessors whose
//! contracts state the exact bit extraction.
use vstd::prelude::*;
use crate::zend::hash::hash_of;

verus! {

pub type zend_long = i64;

pub type zend_ulong = u64;

pub type zend_uchar = u8;

pub type zend_bool = u8;

pub type zend_type = u64;

pub type Flag = u32;

/// regular data types
pub const IS_UNDEF: zend_type = 0;

pub const IS_NULL: zend_type = 1;

pub const IS_FALSE: zend_type = 2;

pub const IS_TRUE: zend_type = 3;

pub const IS_LONG: zend_type = 4;

pub const IS_DOUBLE: zend_type = 5;

pub const IS_STRING: zend_type = 6;

pub const IS_ARRAY: zend_type = 7;

pub const IS_OBJECT: zend_type = 8;

pub const IS_RESOURCE: zend_type = 9;

pub const IS_REFERENCE: zend_type = 10;

/// constant expressions
pub const IS_CONSTANT: zend_type = 11;

pub const IS_CONSTANT_AST: zend_type = 12;

/// fake types
pub const _IS_BOOL: zend_type = 13;

pub const IS_CALLABLE: zend_type = 14;

/// internal types
pub const IS_INDIRECT: zend_type = 15;

pub const IS_PTR: zend_type = 17;

pub const Z_TYPE_MASK: Flag = 0xff;

pub const Z_TYPE_FLAGS_SHIFT: Flag = 8;

pub const Z_CONST_FLAGS_SHIFT: Flag = 16;

pub const GC_TYPE_MASK: Flag = 0x0000000f;

pub const GC_FLAGS_MASK: Flag = 0x000003f0;

pub const GC_INFO_MASK: Flag = 0xfffffc00;

pub const GC_FLAGS_SHIFT: Flag = 0;

pub const GC_INFO_SHIFT: Flag = 10;

/// common gc flag: participates in cycle collection (bit 4)
pub const GC_COLLECTABLE: Flag = 0x10;

/// used for recursion detection (bit 5)
pub const GC_PROTECTED: Flag = 0x20;

/// can't be changed in place (bit 6)
pub const GC_IMMUTABLE: Flag = 0x40;

/// allocated in the persistent domain, i.e. with malloc (bit 7)
pub const GC_PERSISTENT: Flag = 0x80;

/// persistent, but thread-local (bit 8)
pub const GC_PERSISTENT_LOCAL: Flag = 0x100;

/// zval.u1 type_flags (bits 0 through 5)
pub const IS_TYPE_CONSTANT: Flag = 0x01;

pub const IS_TYPE_IMMUTABLE: Flag = 0x02;

pub const IS_TYPE_REFCOUNTED: Flag = 0x04;

pub const IS_TYPE_COLLECTABLE: Flag = 0x08;

pub const IS_TYPE_COPYABLE: Flag = 0x10;

pub const IS_TYPE_SYMBOLTABLE: Flag = 0x20;

/// extended type words: the type byte together with its type_flags byte,
/// shifted left by Z_TYPE_FLAGS_SHIFT
pub const IS_INTERNED_STRING_EX: Flag = 0x0006;

/// IS_STRING with type_flags REFCOUNTED | COPYABLE
pub const IS_STRING_EX: Flag = 0x1406;

/// IS_ARRAY with type_flags REFCOUNTED | COLLECTABLE | COPYABLE
pub const IS_ARRAY_EX: Flag = 0x1c07;

/// IS_OBJECT with type_flags REFCOUNTED | COLLECTABLE
pub const IS_OBJECT_EX: Flag = 0x0c08;

/// IS_RESOURCE with type_flags REFCOUNTED
pub const IS_RESOURCE_EX: Flag = 0x0409;

/// IS_REFERENCE with type_flags REFCOUNTED
pub const IS_REFERENCE_EX: Flag = 0x040a;

/// IS_CONSTANT with type_flags CONSTANT | REFCOUNTED | COPYABLE
pub const IS_CONSTANT_EX: Flag = 0x150b;

/// IS_CONSTANT_AST with type_flags CONSTANT | REFCOUNTED | COPYABLE
pub const IS_CONSTANT_AST_EX: Flag = 0x150c;

/// string flags, stored in the header's flags byte (bits 0 through 4)
pub const IS_STR_PERSISTENT: Flag = 0x01;

pub const IS_STR_INTERNED: Flag = 0x02;

pub const IS_STR_PERMANENT: Flag = 0x04;

pub const IS_STR_CONSTANT: Flag = 0x08;

pub const IS_STR_CONSTANT_UNQUALIFIED: Flag = 0x10;

/// The common prefix of every heap-allocated value kind: a reference count
/// and a packed `type_info` word overlaying `{ type_: u8, flags: u8,
/// gc_info: u16 }` little-endian.
#[derive(Clone, Copy, PartialEq, Eq, Structural, Debug)]
pub struct zend_refcounted_h {
    /// reference counter, 32-bit
    pub refcount: u32,
    /// packed type/flags/gc fields
    pub type_info: u32,
}

/// Builds the packed header word from its three fields.
pub open spec fn pack_type_info(type_: u8, flags: u8, gc_info: u16) -> u32 {
    (type_ as u32) | ((flags as u32) << 8) | ((gc_info as u32) << 16)
}

impl zend_refcounted_h {
    /// The type byte of the packed word.
    pub open spec fn spec_type_(self) -> u8 {
        (self.type_info & 0xff) as u8
    }

    /// The flags byte of the packed word.
    pub open spec fn spec_flags(self) -> u8 {
        ((self.type_info >> 8) & 0xff) as u8
    }

    /// The gc_info half-word of the packed word.
    pub open spec fn spec_gc_info(self) -> u16 {
        ((self.type_info >> 16) & 0xffff) as u16
    }

    /// A fresh header as every constructor of this layer writes it:
    /// refcount 1, the kind's type byte, and the given flags byte.
    pub open spec fn spec_fresh(type_: u8, flags: u8) -> zend_refcounted_h {
        zend_refcounted_h { refcount: 1, type_info: pack_type_info(type_, flags, 0) }
    }

    pub fn fresh(type_: u8, flags: u8) -> (r: zend_refcounted_h)
        ensures
            r == Self::spec_fresh(type_, flags),
            r.spec_type_() == type_,
            r.spec_flags() == flags,
            r.spec_gc_info() == 0,
            r.refcount == 1,
    {
        let type_info: u32 = (type_ as u32) | ((flags as u32) << 8);
        proof {
            lemma_pack_fields(type_, flags, 0);
            assert((type_ as u32) | ((flags as u32) << 8) == (type_ as u32) | ((flags as u32)
                << 8) | ((0u16 as u32) << 16)) by (bit_vector);
        }
        zend_refcounted_h { refcount: 1, type_info }
    }

    pub fn refcount(&self) -> (r: u32)
        ensures
            r == self.refcount,
    {
        self.refcount
    }

    pub fn type_info(&self) -> (r: u32)
        ensures
            r == self.type_info,
    {
        self.type_info
    }

    pub fn type_(&self) -> (r: zend_uchar)
        ensures
            r == self.spec_type_(),
    {
        (self.type_info & 0xff) as u8
    }

    pub fn flags(&self) -> (r: zend_uchar)
        ensures
            r == self.spec_flags(),
    {
        ((self.type_info >> 8) & 0xff) as u8
    }

    pub fn gc_info(&self) -> (r: u16)
        ensures
            r == self.spec_gc_info(),
    {
        ((self.type_info >> 16) & 0xffff) as u16
    }
}

/// Packing then extracting gives back the three fields unchanged.
pub proof fn lemma_pack_fields(type_: u8, flags: u8, gc_info: u16)
    ensures
        (zend_refcounted_h { refcount: 1, type_info: pack_type_info(type_, flags, gc_info) })
            .spec_type_() == type_,
        (zend_refcounted_h { refcount: 1, type_info: pack_type_info(type_, flags, gc_info) })
            .spec_flags() == flags,
        (zend_refcounted_h { refcount: 1, type_info: pack_type_info(type_, flags, gc_info) })
            .spec_gc_info() == gc_info,
{
    assert((((type_ as u32) | ((flags as u32) << 8) | ((gc_info as u32) << 16)) & 0xff) as u8
        == type_) by (bit_vector);
    assert(((((type_ as u32) | ((flags as u32) << 8) | ((gc_info as u32) << 16)) >> 8) & 0xff)
        as u8 == flags) by (bit_vector);
    assert(((((type_ as u32) | ((flags as u32) << 8) | ((gc_info as u32) << 16)) >> 16) & 0xffff)
        as u16 == gc_info) by (bit_vector);
}

/// A heap value seen only through its common header prefix.
#[derive(Clone, Copy, PartialEq, Eq, Structural, Debug)]
pub struct zend_refcounted {
    pub gc: zend_refcounted_h,
}

/// The two half-words of the fixed-size payload, exposed for callers that
/// inspect a value word by word.
#[derive(Clone, Copy, PartialEq, Eq, Structural, Debug, Default)]
pub struct zend_value_ww {
    pub w1: u32,
    pub w2: u32,
}

/// Destructor callbacks the engine publishes for table values.  The model
/// records which one a table was configured with; running it is the host's
/// job.
#[derive(Clone, Copy, PartialEq, Eq, Structural, Debug)]
pub enum DtorFunc {
    ZvalPtrDtor,
    InternalPtrDtor,
}

pub type DtorFuncT = Option<DtorFunc>;

/// The fixed-size payload of a value: exactly one member is meaningful,
/// selected by the discriminant byte of the owning `zval`.  `Empty` stands
/// for the payload of kinds that carry none (undefined, null, booleans),
/// whose bytes the engine never reads.
#[derive(PartialEq, Eq, Debug)]
pub enum zend_value {
    Empty,
    /// long value
    Long(zend_long),
    /// double value, kept as its IEEE-754 bit pattern
    Double(u64),
    /// string handle
    Str(Box<zend_string>),
    /// array handle
    Arr(Box<zend_array>),
    /// reference handle
    Ref(Box<zend_reference>),
    /// an indirect slot: the actual value lives one level away
    Indirect(Box<zval>),
    /// opaque pointer or function handle, kept as an address token
    Ptr(zend_ulong),
    /// the payload seen as two half-words
    Ww(zend_value_ww),
}

/// The tagged value: a payload plus the packed `u1` word
/// `{ type_: u8, type_flags: u8, const_flags: u8, reserved: u8 }` and the
/// `u2` word (var_flags / next / cache_slot / ...).
#[derive(PartialEq, Eq, Debug)]
pub struct zval {
    pub value: zend_value,
    pub type_info: u32,
    pub u2: u32,
}

/// A refcounted, length-prefixed, hash-cached byte buffer.  `val` holds
/// `len` content bytes plus one trailing zero byte not counted in `len`.
#[derive(PartialEq, Eq, Debug)]
pub struct zend_string {
    pub gc: zend_refcounted_h,
    /// cached content hash; 0 means not yet computed
    pub h: zend_ulong,
    pub len: usize,
    pub val: Vec<u8>,
}

impl zend_string {
    /// The `len` content bytes, without the trailing zero byte.
    pub open spec fn content(self) -> Seq<u8> {
        self.val@.subrange(0, self.len as int)
    }

    /// Buffer discipline: exactly `len` bytes plus a zero terminator.
    pub open spec fn buf_wf(self) -> bool {
        &&& self.val@.len() == self.len + 1
        &&& self.val@[self.len as int] == 0
    }
}

/// One storage unit of the ordered hash table: a value, the hash (or the
/// integer index when `key` is `None`), and the owned string key.
#[derive(PartialEq, Eq, Debug)]
pub struct Bucket {
    pub val: zval,
    /// hash value (or numeric index)
    pub h: zend_ulong,
    /// string key, or None for integer-indexed entries
    pub key: Option<Box<zend_string>>,
}

/// The insertion-ordered hash table.  `arData` holds the first `nNumUsed`
/// storage slots in insertion order; slots whose value has the undefined
/// discriminant are tombstones that count toward `nNumUsed` but not
/// `nNumOfElements`.  `nTableSize` is the bucket capacity (a power of two,
/// at least 8) and `nTableMask` its index mask.
#[derive(PartialEq, Eq, Debug)]
pub struct zend_array {
    pub gc: zend_refcounted_h,
    /// packed flags word (`HASH_FLAG_*` bits in the low byte)
    pub u: u32,
    pub nTableMask: u32,
    pub arData: Vec<Bucket>,
    pub nNumUsed: u32,
    pub nNumOfElements: u32,
    pub nTableSize: u32,
    pub nInternalPointer: u32,
    pub nNextFreeElement: zend_long,
    pub pDestructor: DtorFuncT,
}

/// A refcounted reference cell holding one value.
#[derive(PartialEq, Eq, Debug)]
pub struct zend_reference {
    pub gc: zend_refcounted_h,
    pub val: zval,
}

/// The table under its engine name.
pub type HashTable = zend_array;

/// A forward traversal position: a storage index.
pub type HashPosition = u32;

/// The engine types under their exported names.
pub type Long = zend_long;

pub type Ulong = zend_ulong;

pub type OffT = zend_long;

pub type Bool = zend_bool;

pub type Uchar = zend_uchar;

pub type Type = zend_type;

pub type Value = zend_value;

pub type Zval = zval;

pub type ValueWw = zend_value_ww;

pub type RefcountedH = zend_refcounted_h;

pub type Refcounted = zend_refcounted;

pub type Array = zend_array;

pub type Reference = zend_reference;

impl zval {
    /// The active type: the low byte of the packed `type_info` word.
    pub open spec fn type_of(self) -> zend_type {
        (self.type_info & 0xff) as zend_type
    }

    pub open spec fn type_flags_of(self) -> u8 {
        ((self.type_info >> 8) & 0xff) as u8
    }

    pub open spec fn const_flags_of(self) -> u8 {
        ((self.type_info >> 16) & 0xff) as u8
    }

    /// Discriminant consistency: the type byte always selects the payload
    /// member that is legal to read.  Kinds that carry no payload leave it
    /// unconstrained, since no operation reads it.
    pub open spec fn wf(self) -> bool
        decreases self,
    {
        &&& (self.type_of() == IS_LONG ==> self.value is Long)
        &&& (self.type_of() == IS_DOUBLE ==> self.value is Double)
        &&& (self.type_of() == IS_STRING ==> (self.value matches zend_value::Str(s)
            && s.buf_wf()))
        &&& (self.type_of() == IS_ARRAY ==> (self.value matches zend_value::Arr(a) && a.wf()))
        &&& (self.type_of() == IS_REFERENCE ==> (self.value matches zend_value::Ref(r)
            && r.val.wf()))
        &&& (self.type_of() == IS_PTR ==> self.value is Ptr)
        &&& (self.type_of() == IS_INDIRECT ==> (self.value matches zend_value::Indirect(t)
            && t.wf()))
    }
}

/// A mask of the low byte keeps a value below 256 unchanged.
pub proof fn lemma_low_byte_id(ti: u32)
    requires
        ti < 256,
    ensures
        ti & 0xff == ti,
{
    assert(ti < 256 ==> ti & 0xff == ti) by (bit_vector);
}

/// The packed bytes of the extended type words used by the setters.
pub proof fn lemma_ex_word_bytes()
    ensures
        IS_STRING_EX & 0xff == IS_STRING as u32,
        IS_ARRAY_EX & 0xff == IS_ARRAY as u32,
{
    assert(0x1406u32 & 0xff == 6) by (bit_vector);
    assert(0x1c07u32 & 0xff == 7) by (bit_vector);
}

impl zval {
    /// The value every slot starts from: undefined type, empty payload.
    pub open spec fn spec_default() -> zval {
        zval { value: zend_value::Empty, type_info: 0, u2: 0 }
    }

    /// Writes the whole packed `u1` word; payload and `u2` stay.
    pub fn set_type_info(&mut self, type_info: u32)
        ensures
            final(self).type_info == type_info,
            final(self).value == old(self).value,
            final(self).u2 == old(self).u2,
    {
        self.type_info = type_info;
    }

    pub fn set_undef(&mut self)
        ensures
            final(self).type_of() == IS_UNDEF,
            final(self).type_info == IS_UNDEF as u32,
            final(self).value == old(self).value,
            final(self).u2 == old(self).u2,
            final(self).wf(),
    {
        proof {
            lemma_low_byte_id(IS_UNDEF as u32);
        }
        self.set_type_info(IS_UNDEF as u32);
    }

    pub fn set_null(&mut self)
        ensures
            final(self).type_of() == IS_NULL,
            final(self).type_info == IS_NULL as u32,
            final(self).value == old(self).value,
            final(self).u2 == old(self).u2,
            final(self).wf(),
    {
        proof {
            lemma_low_byte_id(IS_NULL as u32);
        }
        self.set_type_info(IS_NULL as u32);
    }

    pub fn set_false(&mut self)
        ensures
            final(self).type_of() == IS_FALSE,
            final(self).type_info == IS_FALSE as u32,
            final(self).value == old(self).value,
            final(self).u2 == old(self).u2,
            final(self).wf(),
    {
        proof {
            lemma_low_byte_id(IS_FALSE as u32);
        }
        self.set_type_info(IS_FALSE as u32);
    }

    pub fn set_true(&mut self)
        ensures
            final(self).type_of() == IS_TRUE,
            final(self).type_info == IS_TRUE as u32,
            final(self).value == old(self).value,
            final(self).u2 == old(self).u2,
            final(self).wf(),
    {
        proof {
            lemma_low_byte_id(IS_TRUE as u32);
        }
        self.set_type_info(IS_TRUE as u32);
    }

    pub fn set_bool(&mut self, value: bool)
        ensures
            final(self).type_of() == (if value {
                IS_TRUE
            } else {
                IS_FALSE
            }),
            final(self).type_info == (if value {
                IS_TRUE as u32
            } else {
                IS_FALSE as u32
            }),
            final(self).value == old(self).value,
            final(self).u2 == old(self).u2,
            final(self).wf(),
    {
        if value {
            self.set_true()
        } else {
            self.set_false()
        }
    }

    /// Writes the payload before the discriminant word, as every setter of
    /// this layer does.
    pub fn set_long(&mut self, value: zend_long)
        ensures
            final(self).type_of() == IS_LONG,
            final(self).type_info == IS_LONG as u32,
            final(self).value == zend_value::Long(value),
            final(self).u2 == old(self).u2,
            final(self).wf(),
    {
        proof {
            lemma_low_byte_id(IS_LONG as u32);
        }
        self.value = zend_value::Long(value);
        self.set_type_info(IS_LONG as u32);
    }

    /// Stores a double payload, handed over as its IEEE-754 bit pattern.
    pub fn set_double(&mut self, bits: u64)
        ensures
            final(self).type_of() == IS_DOUBLE,
            final(self).type_info == IS_DOUBLE as u32,
            final(self).value == zend_value::Double(bits),
            final(self).u2 == old(self).u2,
            final(self).wf(),
    {
        proof {
            lemma_low_byte_id(IS_DOUBLE as u32);
        }
        self.value = zend_value::Double(bits);
        self.set_type_info(IS_DOUBLE as u32);
    }

    /// Takes ownership of an array and tags the value with the extended
    /// array word.
    pub fn set_arr(&mut self, value: zend_array)
        requires
            value.wf(),
        ensures
            final(self).type_of() == IS_ARRAY,
            final(self).type_info == IS_ARRAY_EX,
            (final(self).value matches zend_value::Arr(a) && *a == value),
            final(self).u2 == old(self).u2,
            final(self).wf(),
    {
        proof {
            lemma_ex_word_bytes();
        }
        self.value = zend_value::Arr(Box::new(value));
        self.set_type_info(IS_ARRAY_EX);
    }

    /// Builds a fresh string from the given bytes and stores it, tagging
    /// the value with the extended string word.
    pub fn set_new_str(&mut self, src: &[u8], persistent: bool)
        requires
            src@.len() < usize::MAX,
        ensures
            final(self).type_of() == IS_STRING,
            final(self).type_info == IS_STRING_EX,
            (final(self).value matches zend_value::Str(s) && s.content() == src@ && s.buf_wf()
                && s.h == 0 && (persistent <==> s.gc.spec_flags() & (IS_STR_PERSISTENT as u8)
                != 0)),
            final(self).u2 == old(self).u2,
            final(self).wf(),
    {
        proof {
            lemma_ex_word_bytes();
        }
        let s = zend_string::init(src, persistent);
        self.value = zend_value::Str(Box::new(s));
        self.set_type_info(IS_STRING_EX);
    }

    /// Marks this slot as an indirection to a value kept elsewhere.
    pub fn set_indirect(&mut self, target: zval)
        requires
            target.wf(),
        ensures
            final(self).type_of() == IS_INDIRECT,
            final(self).type_info == IS_INDIRECT as u32,
            (final(self).value matches zend_value::Indirect(t) && *t == target),
            final(self).u2 == old(self).u2,
            final(self).wf(),
    {
        proof {
            lemma_low_byte_id(IS_INDIRECT as u32);
        }
        self.value = zend_value::Indirect(Box::new(target));
        self.set_type_info(IS_INDIRECT as u32);
    }

    pub fn is_undef(&self) -> (r: bool)
        ensures
            r <==> self.type_of() == IS_UNDEF,
    {
        self.get_type() as zend_type == IS_UNDEF
    }

    pub fn is_indirect(&self) -> (r: bool)
        ensures
            r <==> self.type_of() == IS_INDIRECT,
    {
        self.get_type() as zend_type == IS_INDIRECT
    }

    pub fn is_bool(&self) -> (r: bool)
        ensures
            r <==> (self.type_of() == IS_TRUE || self.type_of() == IS_FALSE),
    {
        let t = self.get_type() as zend_type;
        t == IS_TRUE || t == IS_FALSE
    }

    pub fn is_long(&self) -> (r: bool)
        ensures
            r <==> self.type_of() == IS_LONG,
    {
        self.get_type() as zend_type == IS_LONG
    }

    pub fn is_double(&self) -> (r: bool)
        ensures
            r <==> self.type_of() == IS_DOUBLE,
    {
        self.get_type() as zend_type == IS_DOUBLE
    }

    pub fn is_string(&self) -> (r: bool)
        ensures
            r <==> self.type_of() == IS_STRING,
    {
        self.get_type() as zend_type == IS_STRING
    }

    pub fn is_array(&self) -> (r: bool)
        ensures
            r <==> self.type_of() == IS_ARRAY,
    {
        self.get_type() as zend_type == IS_ARRAY
    }

    /// Follows an indirect slot one level to the value it stands for.
    pub fn indirect(&self) -> (r: &zval)
        requires
            self.value is Indirect,
        ensures
            (self.value matches zend_value::Indirect(t) && *r == *t),
    {
        match &self.value {
            zend_value::Indirect(t) => t,
            _ => unreached(),
        }
    }

    pub fn get_type(&self) -> (r: zend_uchar)
        ensures
            r as zend_type == self.type_of(),
    {
        proof {
            let ti = self.type_info;
            assert(ti & 0xff < 256) by (bit_vector);
        }
        (self.type_info & 0xff) as u8
    }

    pub fn get_type_flags(&self) -> (r: zend_uchar)
        ensures
            r == self.type_flags_of(),
    {
        ((self.type_info >> 8) & 0xff) as u8
    }

    pub fn get_const_flags(&self) -> (r: zend_uchar)
        ensures
            r == self.const_flags_of(),
    {
        ((self.type_info >> 16) & 0xff) as u8
    }

    pub fn get_type_info(&self) -> (r: u32)
        ensures
            r == self.type_info,
    {
        self.type_info
    }

    pub fn get_var_flags(&self) -> (r: u32)
        ensures
            r == self.u2,
    {
        self.u2
    }
}

impl Default for zval {
    /// A zeroed slot: undefined, with an empty payload.
    fn default() -> (r: zval)
        ensures
            r == zval::spec_default(),
            r.type_of() == IS_UNDEF,
            r.wf(),
    {
        proof {
            lemma_low_byte_id(0);
        }
        zval { value: zend_value::Empty, type_info: 0, u2: 0 }
    }
}

/// The key of one table entry, as the contracts speak of it: a byte-string
/// key or an integer index.
pub enum HashKey {
    Str(Seq<u8>),
    Int(zend_ulong),
}

/// Whether a count is a power of two.
pub open spec fn spec_is_pow2(x: u32) -> bool
    decreases x,
{
    if x == 0 {
        false
    } else if x == 1 {
        true
    } else if x % 2 == 1 {
        false
    } else {
        spec_is_pow2(x / 2)
    }
}

/// How many slots of the storage sequence are live (not tombstoned).
pub open spec fn count_live(s: Seq<Bucket>) -> int
    decreases s.len(),
{
    if s.len() == 0 {
        0int
    } else {
        count_live(s.drop_last()) + if s.last().live() {
            1int
        } else {
            0int
        }
    }
}

impl Bucket {
    /// Tombstone test: a slot whose value has the undefined discriminant
    /// counts toward `nNumUsed` but holds no element.
    pub open spec fn live(self) -> bool {
        self.val.type_of() != IS_UNDEF
    }

    /// The key this slot is filed under.
    pub open spec fn key_of(self) -> HashKey {
        match self.key {
            Some(s) => HashKey::Str((*s).content()),
            None => HashKey::Int(self.h),
        }
    }

    /// The value the slot stands for: an indirect slot is followed one
    /// level, every other slot holds its value directly.
    pub open spec fn resolved(self) -> zval {
        if self.val.type_of() == IS_INDIRECT {
            match self.val.value {
                zend_value::Indirect(t) => *t,
                _ => self.val,
            }
        } else {
            self.val
        }
    }

    /// Whether lookups and iteration report this slot: its resolved value
    /// must not be undefined.
    pub open spec fn visible(self) -> bool {
        self.live() && self.resolved().type_of() != IS_UNDEF
    }

    /// Key discipline: a string key is a well-formed buffer, the slot's
    /// hash is its content hash, and the key's memo caches the same hash.
    pub open spec fn key_wf(self) -> bool {
        match self.key {
            Some(s) => (*s).buf_wf() && self.h == hash_of((*s).content()) && (*s).h == self.h,
            None => true,
        }
    }

    /// What reading this slot reports: the resolved value when `indirect`
    /// resolution is asked for, the stored value otherwise; absent when the
    /// read value is undefined.
    pub open spec fn get_val_spec(self, indirect: bool) -> Option<zval> {
        let z = if indirect {
            self.resolved()
        } else {
            self.val
        };
        if z.type_of() == IS_UNDEF {
            None
        } else {
            Some(z)
        }
    }

    /// Reads the slot's value, resolving an indirect slot one level when
    /// asked to, and treating undefined as absent.
    pub fn get_val(&self, indirect: bool) -> (r: Option<&zval>)
        requires
            self.val.wf(),
        ensures
            (match r {
                Some(v) => self.get_val_spec(indirect) == Some(*v),
                None => self.get_val_spec(indirect) is None,
            }),
    {
        let z: &zval = if indirect && self.val.get_type() as zend_type == IS_INDIRECT {
            self.val.indirect()
        } else {
            &self.val
        };
        if z.get_type() as zend_type == IS_UNDEF {
            None
        } else {
            Some(z)
        }
    }

    /// The slot's hash value (or integer index).
    pub fn get_hash(&self) -> (r: Option<zend_ulong>)
        ensures
            r == Some(self.h),
    {
        Some(self.h)
    }

    /// The slot's string key, absent for integer-indexed entries.
    pub fn get_key(&self) -> (r: Option<&zend_string>)
        ensures
            (match r {
                Some(s) => (self.key matches Some(k) && *s == *k),
                None => self.key is None,
            }),
    {
        match &self.key {
            Some(k) => Some(k),
            None => None,
        }
    }

    /// Like `get_val`, but hands the read slot out for mutation; writing
    /// through the result writes the resolved target.
    pub fn get_val_mut(&mut self, indirect: bool) -> (r: Option<&mut zval>)
        requires
            old(self).val.wf(),
        ensures
            (match r {
                Some(v) => old(self).get_val_spec(indirect) == Some(*v) && final(self).h == old(
                    self,
                ).h && final(self).key == old(self).key && (if indirect && old(
                    self,
                ).val.type_of() == IS_INDIRECT {
                    final(self).val.type_info == old(self).val.type_info && final(self).val.u2
                        == old(self).val.u2 && (final(self).val.value matches zend_value::Indirect(
                        t,
                    ) && *t == *final(v))
                } else {
                    final(self).val == *final(v)
                }),
                None => old(self).get_val_spec(indirect) is None && *final(self) == *old(self),
            }),
    {
        if indirect && self.val.get_type() as zend_type == IS_INDIRECT {
            match &mut self.val.value {
                zend_value::Indirect(t) => {
                    if t.get_type() as zend_type == IS_UNDEF {
                        None
                    } else {
                        Some(t)
                    }
                },
                _ => unreached(),
            }
        } else {
            if self.val.get_type() as zend_type == IS_UNDEF {
                None
            } else {
                Some(&mut self.val)
            }
        }
    }
}

impl zend_array {
    /// The full table invariant: counts and mask agree with the storage,
    /// every slot holds a well-formed value under a disciplined key, and
    /// live keys are unique.
    pub open spec fn wf(self) -> bool
        decreases self,
    {
        &&& self.arData@.len() == self.nNumUsed
        &&& self.nNumUsed <= self.nTableSize
        &&& self.nNumOfElements == count_live(self.arData@)
        &&& 8 <= self.nTableSize
        &&& spec_is_pow2(self.nTableSize)
        &&& self.nTableMask == self.nTableSize - 1
        &&& 0 <= self.nNextFreeElement
        &&& (forall|i: int|
            0 <= i < self.arData@.len() && (#[trigger] self.arData@[i]).live()
                && self.arData@[i].key is None && self.arData@[i].h < 0x8000_0000_0000_0000
                ==> (self.arData@[i].h as int) < self.nNextFreeElement as int
                || self.arData@[i].h == 0x7fff_ffff_ffff_ffff)
        &&& (forall|i: int| 0 <= i < self.arData@.len() ==> (#[trigger] self.arData@[i]).val.wf())
        &&& (forall|i: int| 0 <= i < self.arData@.len() ==> (#[trigger] self.arData@[i]).key_wf())
        &&& (forall|i: int, j: int|
            0 <= i < j < self.arData@.len() && (#[trigger] self.arData@[i]).live()
                && (#[trigger] self.arData@[j]).live() ==> self.arData@[i].key_of()
                != self.arData@[j].key_of())
    }

    /// Is some live slot filed under key `k`?
    pub open spec fn has_key(self, k: HashKey) -> bool {
        exists|i: int|
            0 <= i < self.arData@.len() && (#[trigger] self.arData@[i]).live()
                && self.arData@[i].key_of() == k
    }

    /// The storage index of the live slot filed under `k` (unique when the
    /// invariant holds).
    pub open spec fn index_of_key(self, k: HashKey) -> int {
        choose|i: int|
            0 <= i < self.arData@.len() && (#[trigger] self.arData@[i]).live()
                && self.arData@[i].key_of() == k
    }

    /// What a resolving lookup reports for key `k`: the resolved value of
    /// its slot, absent when there is no slot or the slot resolves to an
    /// undefined value.
    pub open spec fn lookup_ind(self, k: HashKey) -> Option<zval> {
        if self.has_key(k) {
            let b = self.arData@[self.index_of_key(k)];
            if b.visible() {
                Some(b.resolved())
            } else {
                None
            }
        } else {
            None
        }
    }
}

/// A live slot filed under `k` pins down `index_of_key` and `has_key`.
pub proof fn lemma_key_index(a: zend_array, k: HashKey, i: int)
    requires
        a.wf(),
        0 <= i < a.arData@.len(),
        a.arData@[i].live(),
        a.arData@[i].key_of() == k,
    ensures
        a.has_key(k),
        a.index_of_key(k) == i,
{
    assert(a.has_key(k));
    let j = a.index_of_key(k);
    if i < j {
        assert(a.arData@[i].key_of() != a.arData@[j].key_of());
    } else if j < i {
        assert(a.arData@[j].key_of() != a.arData@[i].key_of());
    }
}

/// Outcome word of engine calls: zero for success, negative for failure.
#[derive(Clone, Copy, PartialEq, Eq, Structural, Debug)]
pub enum ZEND_RESULT_CODE {
    SUCCESS,
    FAILURE,
}

impl ZEND_RESULT_CODE {
    pub fn is_success(&self) -> (r: bool)
        ensures
            r <==> (*self == ZEND_RESULT_CODE::SUCCESS),
    {
        matches!(self, ZEND_RESULT_CODE::SUCCESS)
    }

    pub fn is_failure(&self) -> (r: bool)
        ensures
            r <==> (*self == ZEND_RESULT_CODE::FAILURE),
    {
        matches!(self, ZEND_RESULT_CODE::FAILURE)
    }

    /// The C-level value of the code: 0 for success, -1 for failure.
    pub fn as_int(&self) -> (r: i32)
        ensures
            (*self == ZEND_RESULT_CODE::SUCCESS) ==> r == 0,
            (*self == ZEND_RESULT_CODE::FAILURE) ==> r == -1,
    {
        match self {
            ZEND_RESULT_CODE::SUCCESS => 0,
            ZEND_RESULT_CODE::FAILURE => -1,
        }
    }
}

} // verus!
