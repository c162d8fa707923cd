use zend_safe::zend::types::{
    zend_refcounted_h, zend_value, zval, IS_ARRAY, IS_DOUBLE, IS_FALSE, IS_INDIRECT, IS_LONG,
    IS_NULL, IS_OBJECT, IS_STRING, IS_TRUE, IS_UNDEF,
};
use zend_safe::{Array, ArrayApi, ArrayIndex, Refcounted, Value, Zval, ZEND_RESULT_CODE};

fn long_raw(v: i64) -> zval {
    let mut raw = zval::default();
    raw.set_long(v);
    raw
}

#[test]
fn round_trip_long() {
    let mut raw = zval::default();
    raw.set_long(42);
    assert!(matches!(raw.value(), Value::Long(42)));
    assert!(raw.is_long());
    assert_eq!(raw.get_type() as u64, IS_LONG);
}

#[test]
fn round_trip_bool() {
    let mut raw = zval::default();
    raw.set_bool(true);
    assert!(matches!(raw.value(), Value::Bool(true)));
    assert!(raw.is_bool());
    raw.set_bool(false);
    assert!(matches!(raw.value(), Value::Bool(false)));
    assert_eq!(raw.get_type() as u64, IS_FALSE);
}

#[test]
fn round_trip_null_and_undef() {
    let mut raw = zval::default();
    assert!(matches!(raw.value(), Value::Undefined));
    assert!(raw.is_undef());
    raw.set_null();
    assert!(matches!(raw.value(), Value::Null));
    assert_eq!(raw.get_type() as u64, IS_NULL);
    raw.set_undef();
    assert!(matches!(raw.value(), Value::Undefined));
    assert_eq!(raw.get_type() as u64, IS_UNDEF);
}

#[test]
fn round_trip_true_false() {
    let mut raw = zval::default();
    raw.set_true();
    assert_eq!(raw.get_type() as u64, IS_TRUE);
    assert!(matches!(raw.value(), Value::Bool(true)));
    raw.set_false();
    assert!(matches!(raw.value(), Value::Bool(false)));
}

#[test]
fn round_trip_double_bits() {
    let bits = 3.5f64.to_bits();
    let z = Zval::from_double_bits(bits);
    match z.value() {
        Value::Double(b) => {
            assert_eq!(b, bits);
            assert_eq!(f64::from_bits(b), 3.5);
        },
        _ => panic!("expected a double"),
    }
    assert_eq!(z.as_raw().get_type() as u64, IS_DOUBLE);
}

#[test]
fn round_trip_string() {
    let z = Zval::from_bytes(b"hello", false);
    match z.value() {
        Value::String(s) => {
            assert_eq!(s.len, 5);
            assert_eq!(&s.val[..s.len], b"hello");
            assert_eq!(s.val[s.len], 0);
        },
        _ => panic!("expected a string"),
    }
    assert_eq!(z.as_raw().get_type() as u64, IS_STRING);
}

#[test]
fn classify_array_value() {
    let mut arr = Array::new();
    arr.insert(ArrayIndex::Str(b"k".to_vec()), Zval::from(7i64));
    let Array(table) = arr;
    let mut raw = zval::default();
    raw.set_arr(table);
    assert!(raw.is_array());
    match raw.value() {
        Value::Array(a) => {
            assert_eq!(a.nNumOfElements, 1);
        },
        _ => panic!("expected an array"),
    }
    assert_eq!(raw.get_type() as u64, IS_ARRAY);
}

#[test]
fn classify_unknown_discriminant() {
    let mut raw = zval::default();
    raw.set_type_info(IS_OBJECT as u32);
    assert!(matches!(raw.value(), Value::Unknown));
}

#[test]
fn indirect_discriminant_and_payload() {
    let mut target = zval::default();
    target.set_long(9);
    let mut raw = zval::default();
    raw.set_indirect(target);
    assert!(raw.is_indirect());
    assert_eq!(raw.get_type() as u64, IS_INDIRECT);
    let t = raw.indirect();
    assert!(matches!(t.value, zend_value::Long(9)));
}

#[test]
fn as_array_rejects_non_arrays() {
    let raw = long_raw(3);
    assert!(raw.as_array().is_none());
}

#[test]
fn type_info_packing() {
    let mut raw = zval::default();
    raw.set_type_info(0x00aa1c07);
    assert_eq!(raw.get_type(), 0x07);
    assert_eq!(raw.get_type_flags(), 0x1c);
    assert_eq!(raw.get_const_flags(), 0xaa);
    assert_eq!(raw.get_type_info(), 0x00aa1c07);
}

#[test]
fn payload_written_before_discriminant_survives_retag() {
    // retagging alone must not disturb the payload
    let mut raw = zval::default();
    raw.set_long(11);
    raw.set_null();
    assert!(matches!(raw.value, zend_value::Long(11)));
    assert!(matches!(raw.value(), Value::Null));
}

#[test]
fn refcounted_header_accessors() {
    let h = zend_refcounted_h { refcount: 5, type_info: 0x00bb0a06 };
    let r = Refcounted(h);
    assert_eq!(r.refcount(), 5);
    assert_eq!(r.type_(), 0x06);
    assert_eq!(r.flags(), 0x0a);
    assert_eq!(r.gc_info(), 0x00bb);
    assert_eq!(r.type_info(), 0x00bb0a06);
}

#[test]
fn refcounted_fresh_header() {
    let h = zend_refcounted_h::fresh(6, 0x01);
    assert_eq!(h.refcount, 1);
    assert_eq!(h.type_(), 6);
    assert_eq!(h.flags(), 0x01);
    assert_eq!(h.gc_info(), 0);
}

#[test]
fn result_code_values() {
    assert!(ZEND_RESULT_CODE::SUCCESS.is_success());
    assert!(!ZEND_RESULT_CODE::SUCCESS.is_failure());
    assert!(ZEND_RESULT_CODE::FAILURE.is_failure());
    assert_eq!(ZEND_RESULT_CODE::SUCCESS.as_int(), 0);
    assert_eq!(ZEND_RESULT_CODE::FAILURE.as_int(), -1);
}

#[test]
fn zero_copy_wrap_unwrap_identity() {
    let z = Zval::read_into_safe(long_raw(77));
    assert_eq!(*z.as_raw(), long_raw(77));
    let back = z.raw();
    assert_eq!(back, long_raw(77));
}

#[test]
fn zval_from_long_conversion() {
    let z: Zval = 123i64.into();
    assert!(matches!(z.value(), Value::Long(123)));
}
