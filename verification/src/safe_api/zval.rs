//! Classified access to the tagged value: the discriminant byte is read
//! once, and exactly the matching payload member is handed out as a typed
//! variant.  The raw union is never exposed unclassified.
use vstd::prelude::*;
use crate::zend::types::{
    zend_array, zend_long, zend_reference, zend_string, zend_type, zend_value, zval, IS_ARRAY,
    IS_DOUBLE, IS_FALSE, IS_LONG, IS_NULL, IS_REFERENCE, IS_STRING, IS_TRUE, IS_UNDEF,
};

verus! {

/// A classified value: one variant per discriminant this layer reads,
/// carrying the matching payload.  Heap payloads are borrowed, never
/// copied.  Discriminants outside the closed set classify as `Unknown`.
#[derive(Debug)]
pub enum Value<'a> {
    Undefined,
    Null,
    Bool(bool),
    Long(zend_long),
    /// the double payload, as its IEEE-754 bit pattern
    Double(u64),
    String(&'a zend_string),
    Array(&'a zend_array),
    Reference(&'a zend_reference),
    Unknown,
}

/// Whether a discriminant belongs to the closed set this layer classifies.
pub open spec fn classified_type(t: zend_type) -> bool {
    t == IS_UNDEF || t == IS_NULL || t == IS_FALSE || t == IS_TRUE || t == IS_LONG || t
        == IS_DOUBLE || t == IS_STRING || t == IS_ARRAY || t == IS_REFERENCE
}

/// The classification of a value at the specification level, with heap
/// payloads held by value.
pub enum ValueModel {
    Undefined,
    Null,
    Bool(bool),
    Long(zend_long),
    Double(u64),
    Str(zend_string),
    Arr(zend_array),
    Ref(zend_reference),
    Unknown,
}

/// What classifying a value must report: the discriminant selects the
/// variant, and the payload member it licenses is carried along.
pub open spec fn spec_classify(z: zval) -> ValueModel {
    if z.type_of() == IS_UNDEF {
        ValueModel::Undefined
    } else if z.type_of() == IS_NULL {
        ValueModel::Null
    } else if z.type_of() == IS_FALSE {
        ValueModel::Bool(false)
    } else if z.type_of() == IS_TRUE {
        ValueModel::Bool(true)
    } else if z.type_of() == IS_LONG {
        match z.value {
            zend_value::Long(l) => ValueModel::Long(l),
            _ => ValueModel::Unknown,
        }
    } else if z.type_of() == IS_DOUBLE {
        match z.value {
            zend_value::Double(d) => ValueModel::Double(d),
            _ => ValueModel::Unknown,
        }
    } else if z.type_of() == IS_STRING {
        match z.value {
            zend_value::Str(s) => ValueModel::Str(*s),
            _ => ValueModel::Unknown,
        }
    } else if z.type_of() == IS_ARRAY {
        match z.value {
            zend_value::Arr(a) => ValueModel::Arr(*a),
            _ => ValueModel::Unknown,
        }
    } else if z.type_of() == IS_REFERENCE {
        match z.value {
            zend_value::Ref(r) => ValueModel::Ref(*r),
            _ => ValueModel::Unknown,
        }
    } else {
        ValueModel::Unknown
    }
}

/// Agreement of a classified (borrowing) variant with the specification
/// level classification.
pub open spec fn value_matches_model(v: Value<'_>, m: ValueModel) -> bool {
    match v {
        Value::Undefined => m is Undefined,
        Value::Null => m is Null,
        Value::Bool(b) => m == ValueModel::Bool(b),
        Value::Long(l) => m == ValueModel::Long(l),
        Value::Double(d) => m == ValueModel::Double(d),
        Value::String(s) => (m matches ValueModel::Str(t) && t == *s),
        Value::Array(a) => (m matches ValueModel::Arr(b) && b == *a),
        Value::Reference(r) => (m matches ValueModel::Ref(f) && f == *r),
        Value::Unknown => m is Unknown,
    }
}

impl zval {
    /// Classifies the value: reads the discriminant once, then exactly the
    /// matching payload member.
    pub fn value<'a>(&'a self) -> (v: Value<'a>)
        requires
            self.wf(),
        ensures
            value_matches_model(v, spec_classify(*self)),
            self.type_of() == IS_UNDEF ==> v is Undefined,
            self.type_of() == IS_NULL ==> v is Null,
            self.type_of() == IS_FALSE ==> v == Value::Bool(false),
            self.type_of() == IS_TRUE ==> v == Value::Bool(true),
            self.type_of() == IS_LONG ==> (self.value matches zend_value::Long(l) && v
                == Value::Long(l)),
            self.type_of() == IS_DOUBLE ==> (self.value matches zend_value::Double(d) && v
                == Value::Double(d)),
            self.type_of() == IS_STRING ==> (self.value matches zend_value::Str(s) && (
            v matches Value::String(r) && *r == *s)),
            self.type_of() == IS_ARRAY ==> (self.value matches zend_value::Arr(a) && (
            v matches Value::Array(r) && *r == *a)),
            self.type_of() == IS_REFERENCE ==> (self.value matches zend_value::Ref(f) && (
            v matches Value::Reference(r) && *r == *f)),
            !classified_type(self.type_of()) ==> v is Unknown,
    {
        let t = self.get_type() as zend_type;
        if t == IS_UNDEF {
            Value::Undefined
        } else if t == IS_NULL {
            Value::Null
        } else if t == IS_FALSE {
            Value::Bool(false)
        } else if t == IS_TRUE {
            Value::Bool(true)
        } else if t == IS_LONG {
            match &self.value {
                zend_value::Long(l) => Value::Long(*l),
                _ => unreached(),
            }
        } else if t == IS_DOUBLE {
            match &self.value {
                zend_value::Double(d) => Value::Double(*d),
                _ => unreached(),
            }
        } else if t == IS_STRING {
            match &self.value {
                zend_value::Str(s) => Value::String(s),
                _ => unreached(),
            }
        } else if t == IS_ARRAY {
            match &self.value {
                zend_value::Arr(a) => Value::Array(a),
                _ => unreached(),
            }
        } else if t == IS_REFERENCE {
            match &self.value {
                zend_value::Ref(r) => Value::Reference(r),
                _ => unreached(),
            }
        } else {
            Value::Unknown
        }
    }

    /// The array payload, exactly when the discriminant says array.
    pub fn as_array<'a>(&'a self) -> (r: Option<&'a zend_array>)
        requires
            self.wf(),
        ensures
            (match r {
                Some(a) => self.type_of() == IS_ARRAY && (self.value matches zend_value::Arr(b)
                    && *a == *b),
                None => self.type_of() != IS_ARRAY,
            }),
    {
        if self.get_type() as zend_type == IS_ARRAY {
            match &self.value {
                zend_value::Arr(a) => Some(a),
                _ => unreached(),
            }
        } else {
            None
        }
    }

    /// The array payload for mutation; writing through the result writes
    /// the payload in place.
    pub fn as_array_mut<'a>(&'a mut self) -> (r: Option<&'a mut zend_array>)
        requires
            old(self).wf(),
        ensures
            (match r {
                Some(a) => old(self).type_of() == IS_ARRAY && (old(self).value
                    matches zend_value::Arr(b) && *a == *b) && final(self).type_info == old(
                    self,
                ).type_info && final(self).u2 == old(self).u2 && (final(self).value
                    matches zend_value::Arr(c) && *c == *final(a)),
                None => old(self).type_of() != IS_ARRAY && *final(self) == *old(self),
            }),
    {
        if self.get_type() as zend_type == IS_ARRAY {
            match &mut self.value {
                zend_value::Arr(a) => Some(a),
                _ => unreached(),
            }
        } else {
            None
        }
    }
}

/// The checked wrapper over a raw tagged value.  It is layout-identical to
/// the raw value it holds: moving between the two moves the value and
/// nothing else.
#[derive(Debug)]
pub struct Zval(pub zval);

impl Zval {
    /// Takes a raw value into the safe wrapper; a bitwise move.
    pub fn read_into_safe(raw: zval) -> (z: Zval)
        ensures
            z.0 == raw,
    {
        Zval(raw)
    }

    /// Hands the raw value back out; a bitwise move.
    pub fn raw(self) -> (r: zval)
        ensures
            r == self.0,
    {
        self.0
    }

    /// Views the raw value in place.
    pub fn as_raw(&self) -> (r: &zval)
        ensures
            *r == self.0,
    {
        &self.0
    }

    /// Views the raw value in place, for mutation.
    pub fn as_raw_mut(&mut self) -> (r: &mut zval)
        ensures
            *r == old(self).0,
            final(self).0 == *final(r),
    {
        &mut self.0
    }

    /// Classifies the wrapped value.
    pub fn value<'a>(&'a self) -> (v: Value<'a>)
        requires
            self.0.wf(),
        ensures
            value_matches_model(v, spec_classify(self.0)),
            self.0.type_of() == IS_UNDEF ==> v is Undefined,
            self.0.type_of() == IS_NULL ==> v is Null,
            self.0.type_of() == IS_FALSE ==> v == Value::Bool(false),
            self.0.type_of() == IS_TRUE ==> v == Value::Bool(true),
            self.0.type_of() == IS_LONG ==> (self.0.value matches zend_value::Long(l) && v
                == Value::Long(l)),
            self.0.type_of() == IS_DOUBLE ==> (self.0.value matches zend_value::Double(d) && v
                == Value::Double(d)),
            self.0.type_of() == IS_STRING ==> (self.0.value matches zend_value::Str(s) && (
            v matches Value::String(r) && *r == *s)),
            self.0.type_of() == IS_ARRAY ==> (self.0.value matches zend_value::Arr(a) && (
            v matches Value::Array(r) && *r == *a)),
            self.0.type_of() == IS_REFERENCE ==> (self.0.value matches zend_value::Ref(f) && (
            v matches Value::Reference(r) && *r == *f)),
            !classified_type(self.0.type_of()) ==> v is Unknown,
    {
        self.0.value()
    }

    /// The wrapped array payload, exactly when the value is an array.
    pub fn as_array<'a>(&'a self) -> (r: Option<&'a zend_array>)
        requires
            self.0.wf(),
        ensures
            (match r {
                Some(a) => self.0.type_of() == IS_ARRAY && (self.0.value
                    matches zend_value::Arr(b) && *a == *b),
                None => self.0.type_of() != IS_ARRAY,
            }),
    {
        self.0.as_array()
    }

    /// A wrapped long value.
    pub fn from_long(value: zend_long) -> (z: Zval)
        ensures
            z.0.type_of() == IS_LONG,
            z.0.value == zend_value::Long(value),
            z.0.wf(),
    {
        let mut raw: zval = Default::default();
        raw.set_long(value);
        Zval(raw)
    }

    /// A wrapped double value, handed over as its IEEE-754 bit pattern.
    pub fn from_double_bits(bits: u64) -> (z: Zval)
        ensures
            z.0.type_of() == IS_DOUBLE,
            z.0.value == zend_value::Double(bits),
            z.0.wf(),
    {
        let mut raw: zval = Default::default();
        raw.set_double(bits);
        Zval(raw)
    }

    /// A wrapped fresh string value copied from the given bytes.
    pub fn from_bytes(src: &[u8], persistent: bool) -> (z: Zval)
        requires
            src@.len() < usize::MAX,
        ensures
            z.0.type_of() == IS_STRING,
            (z.0.value matches zend_value::Str(s) && s.content() == src@),
            z.0.wf(),
    {
        let mut raw: zval = Default::default();
        raw.set_new_str(src, persistent);
        Zval(raw)
    }
}

/// Zero-copy law: the safe wrapper and the raw value have the same
/// content — wrapping and unwrapping move the value and change nothing.
/// (That the two also share one address when viewed in place is a property
/// of the foreign layout, outside this model.)
pub proof fn lemma_zero_copy_identity(z: zval)
    ensures
        (Zval(z)).0 == z,
{
}

/// Round-trip law: a slot tagged undefined classifies as `Undefined`,
/// whatever its payload holds.
pub proof fn lemma_round_trip_undef(z: zval)
    requires
        z.type_of() == IS_UNDEF,
    ensures
        spec_classify(z) == ValueModel::Undefined,
{
}

/// Round-trip law: a slot tagged null classifies as `Null`.
pub proof fn lemma_round_trip_null(z: zval)
    requires
        z.type_of() == IS_NULL,
    ensures
        spec_classify(z) == ValueModel::Null,
{
}

/// Round-trip law: a slot tagged with either boolean type byte classifies
/// as that boolean.
pub proof fn lemma_round_trip_bool(z: zval, b: bool)
    requires
        z.type_of() == (if b {
            IS_TRUE
        } else {
            IS_FALSE
        }),
    ensures
        spec_classify(z) == ValueModel::Bool(b),
{
}

/// Round-trip law: a long built by the long setter classifies back to the
/// same long.
pub proof fn lemma_round_trip_long(z: zval, v: zend_long)
    requires
        z.type_of() == IS_LONG,
        z.value == zend_value::Long(v),
    ensures
        spec_classify(z) == ValueModel::Long(v),
{
}

/// Round-trip law: a double payload classifies back to the same bits.
pub proof fn lemma_round_trip_double(z: zval, bits: u64)
    requires
        z.type_of() == IS_DOUBLE,
        z.value == zend_value::Double(bits),
    ensures
        spec_classify(z) == ValueModel::Double(bits),
{
}

/// Round-trip law: a string built from source bytes classifies to a string
/// holding those bytes.
pub proof fn lemma_round_trip_string(z: zval, src: Seq<u8>)
    requires
        z.type_of() == IS_STRING,
        (z.value matches zend_value::Str(s) && s.content() == src),
    ensures
        (spec_classify(z) matches ValueModel::Str(s) && s.content() == src),
{
}

/// Round-trip law: an array stored by the array setter classifies back to
/// that array.
pub proof fn lemma_round_trip_array(z: zval, a: zend_array)
    requires
        z.type_of() == IS_ARRAY,
        (z.value matches zend_value::Arr(b) && *b == a),
    ensures
        spec_classify(z) == ValueModel::Arr(a),
{
}

impl From<zend_long> for Zval {
    fn from(from: zend_long) -> (z: Zval)
        ensures
            z == (Zval(
                zval {
                    value: zend_value::Long(from),
                    type_info: 4,
                    u2: 0,
                },
            )),
    {
        let mut raw: zval = Default::default();
        raw.set_long(from);
        Zval(raw)
    }
}

impl vstd::std_specs::convert::FromSpecImpl<zend_long> for Zval {
    open spec fn obeys_from_spec() -> bool {
        true
    }

    open spec fn from_spec(from: zend_long) -> Zval {
        Zval(zval { value: zend_value::Long(from), type_info: 4, u2: 0 })
    }
}

} // verus!
