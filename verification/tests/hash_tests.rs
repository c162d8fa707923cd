use zend_safe::zend::hash::hash_func;
use zend_safe::zend::types::{zend_array, zend_string, zend_value, zval, ZEND_RESULT_CODE};
use zend_safe::{Array, ArrayApi, ArrayIndex, BucketsIter, BucketsIterMut, ZString, Zval};

fn long_zval(v: i64) -> Zval {
    Zval::from(v)
}

fn visible_string_keys(arr: &Array) -> Vec<Vec<u8>> {
    let mut keys = Vec::new();
    let mut it = arr.buckets_iter();
    while let Some(b) = it.next() {
        match &b.key {
            Some(s) => keys.push(s.val[..s.len].to_vec()),
            None => keys.push(Vec::new()),
        }
    }
    keys
}

#[test]
fn insertion_order_preservation() {
    let mut arr = Array::new();
    arr.insert(ArrayIndex::Str(b"foo".to_vec()), long_zval(1));
    arr.insert(ArrayIndex::Str(b"bar".to_vec()), long_zval(2));
    arr.insert(ArrayIndex::Str(b"baz".to_vec()), long_zval(3));
    assert_eq!(
        visible_string_keys(&arr),
        vec![b"foo".to_vec(), b"bar".to_vec(), b"baz".to_vec()]
    );
    arr.delete(&ArrayIndex::Str(b"bar".to_vec()));
    assert_eq!(visible_string_keys(&arr), vec![b"foo".to_vec(), b"baz".to_vec()]);
    arr.insert(ArrayIndex::Str(b"bar".to_vec()), long_zval(4));
    // deletion does not reserve the position; re-insertion appends
    assert_eq!(
        visible_string_keys(&arr),
        vec![b"foo".to_vec(), b"baz".to_vec(), b"bar".to_vec()]
    );
}

#[test]
fn update_keeps_position() {
    let mut arr = Array::new();
    arr.insert(ArrayIndex::Str(b"foo".to_vec()), long_zval(1));
    arr.insert(ArrayIndex::Str(b"bar".to_vec()), long_zval(2));
    arr.insert(ArrayIndex::Str(b"foo".to_vec()), long_zval(10));
    assert_eq!(visible_string_keys(&arr), vec![b"foo".to_vec(), b"bar".to_vec()]);
    let v = arr.get(&ArrayIndex::Str(b"foo".to_vec())).unwrap();
    assert!(matches!(v.value, zend_value::Long(10)));
}

#[test]
fn tombstone_skip() {
    let mut arr = Array::new();
    arr.insert(ArrayIndex::Str(b"a".to_vec()), long_zval(1));
    arr.insert(ArrayIndex::Str(b"b".to_vec()), long_zval(2));
    let used_before = arr.raw().nNumUsed;
    let elems_before = arr.raw().nNumOfElements;
    let r = arr.delete(&ArrayIndex::Str(b"a".to_vec()));
    assert!(r.is_success());
    assert!(!arr.key_exists(&ArrayIndex::Str(b"a".to_vec())));
    assert!(arr.get(&ArrayIndex::Str(b"a".to_vec())).is_none());
    assert_eq!(arr.raw().nNumUsed, used_before);
    assert_eq!(arr.raw().nNumOfElements, elems_before - 1);
    assert_eq!(visible_string_keys(&arr), vec![b"b".to_vec()]);
}

#[test]
fn delete_missing_key_fails() {
    let mut arr = Array::new();
    let r = arr.delete(&ArrayIndex::Str(b"nope".to_vec()));
    assert!(r.is_failure());
    assert_eq!(r, ZEND_RESULT_CODE::FAILURE);
}

#[test]
fn growth_trigger() {
    let mut arr = Array::new();
    assert_eq!(arr.raw().nTableSize, 8);
    for i in 0..8u8 {
        arr.insert(ArrayIndex::Str(vec![b'k', i + b'0']), long_zval(i as i64));
    }
    // at capacity: no growth yet
    assert_eq!(arr.raw().nTableSize, 8);
    arr.insert(ArrayIndex::Str(b"k8x".to_vec()), long_zval(8));
    // exactly one doubling
    assert_eq!(arr.raw().nTableSize, 16);
    for i in 0..7u8 {
        arr.insert(ArrayIndex::Str(vec![b'm', i + b'0']), long_zval(i as i64));
    }
    // 16 entries fit without another doubling
    assert_eq!(arr.raw().nNumUsed, 16);
    assert_eq!(arr.raw().nTableSize, 16);
    arr.insert(ArrayIndex::Str(b"m7x".to_vec()), long_zval(99));
    assert_eq!(arr.raw().nTableSize, 32);
}

#[test]
fn indirect_resolution() {
    let mut table = zend_array::init(0, None, false);
    // an indirect slot whose target is undefined
    let mut undef_ind = zval::default();
    undef_ind.set_indirect(zval::default());
    table.str_update_ind(b"u", undef_ind);
    // an indirect slot whose target holds Long(0)
    let mut zero = zval::default();
    zero.set_long(0);
    let mut zero_ind = zval::default();
    zero_ind.set_indirect(zero);
    table.str_update_ind(b"z", zero_ind);

    assert!(!table.str_exists_ind(b"u"));
    assert!(table.str_find_ind(b"u").is_none());
    assert!(table.str_exists_ind(b"z"));
    let v = table.str_find_ind(b"z").unwrap();
    assert!(matches!(v.value, zend_value::Long(0)));
}

#[test]
fn update_writes_through_indirection() {
    let mut table = zend_array::init(0, None, false);
    let mut t = zval::default();
    t.set_long(1);
    let mut ind = zval::default();
    ind.set_indirect(t);
    table.str_update_ind(b"sym", ind);
    let mut nine = zval::default();
    nine.set_long(9);
    table.str_update_ind(b"sym", nine);
    // the slot stays indirect; the target took the value
    let b = &table.arData[0];
    assert!(b.val.is_indirect());
    let target = b.val.indirect();
    assert!(matches!(target.value, zend_value::Long(9)));
    let v = table.str_find_ind(b"sym").unwrap();
    assert!(matches!(v.value, zend_value::Long(9)));
}

#[test]
fn hash_func_exact_values() {
    assert_eq!(hash_func(b""), 5381);
    assert_eq!(hash_func(b"a"), 5381 * 33 + 97);
    let h2 = (5381u64 * 33 + b'a' as u64) * 33 + b'b' as u64;
    assert_eq!(hash_func(b"ab"), h2);
}

#[test]
fn hash_is_memoized_lazily() {
    let mut s = zend_string::init(b"abc", false);
    assert_eq!(s.h, 0);
    let h = s.hash_val();
    assert_eq!(h, hash_func(b"abc"));
    assert_eq!(s.h, h);
    let again = s.hash_val();
    assert_eq!(again, h);
}

#[test]
fn bucket_hash_matches_key_content() {
    let mut table = zend_array::init(0, None, false);
    let mut v = zval::default();
    v.set_long(5);
    let idx = table.str_update_ind(b"key", v);
    let b = &table.arData[idx];
    assert_eq!(b.h, hash_func(b"key"));
    let ks = b.key.as_ref().unwrap();
    assert_eq!(ks.h, b.h);
}

#[test]
fn bucket_accessors() {
    let mut table = zend_array::init(0, None, false);
    let mut v = zval::default();
    v.set_long(5);
    let idx = table.str_update_ind(b"key", v);
    let b = &table.arData[idx];
    assert_eq!(b.get_hash(), Some(hash_func(b"key")));
    let ks = b.get_key().unwrap();
    assert_eq!(&ks.val[..ks.len], b"key");
    let got = b.get_val(true).unwrap();
    assert!(matches!(got.value, zend_value::Long(5)));

    let mut w = zval::default();
    w.set_long(7);
    let j = table.index_update(3, w);
    let ib = &table.arData[j];
    assert_eq!(ib.get_hash(), Some(3));
    assert!(ib.get_key().is_none());
}

#[test]
fn zstring_keys_and_equality() {
    let mut table = zend_array::init(0, None, false);
    let key = zend_string::init(b"name", false);
    let mut v = zval::default();
    v.set_long(3);
    table.update_ind(key, v);
    let probe = zend_string::init(b"name", false);
    assert!(table.exists_ind(&probe));
    let got = table.find_ind(&probe).unwrap();
    assert!(matches!(got.value, zend_value::Long(3)));

    let a = ZString(zend_string::init(b"xy", false));
    let b = ZString(zend_string::init(b"xy", true));
    let c = ZString(zend_string::init(b"xz", false));
    assert_eq!(a.as_str(), b"xy");
    assert!(a == b);
    assert!(!(a == c));
}

#[test]
fn integer_keys() {
    let mut table = zend_array::init(0, None, false);
    let mut v = zval::default();
    v.set_long(10);
    table.index_update(4, v);
    assert!(table.index_exists(4));
    assert!(!table.index_exists(5));
    let got = table.index_find(4).unwrap();
    assert!(matches!(got.value, zend_value::Long(10)));
    assert_eq!(table.nNextFreeElement, 5);
    let r = table.index_del(4);
    assert!(r.is_success());
    assert!(!table.index_exists(4));
    // the next implicit key never decreases
    assert_eq!(table.nNextFreeElement, 5);
}

#[test]
fn next_index_insert_appends() {
    let mut table = zend_array::init(0, None, false);
    let mut v = zval::default();
    v.set_long(1);
    let i0 = table.next_index_insert(v);
    let mut w = zval::default();
    w.set_long(2);
    let i1 = table.next_index_insert(w);
    assert_eq!(i0, 0);
    assert_eq!(i1, 1);
    assert_eq!(table.nNextFreeElement, 2);
    assert!(table.index_exists(0));
    assert!(table.index_exists(1));
    assert_eq!(table.arData[0].key, None);
    assert_eq!(table.arData[0].h, 0);
}

#[test]
fn next_free_saturates_at_largest_signed_index() {
    let mut table = zend_array::init(0, None, false);
    let mut v = zval::default();
    v.set_long(1);
    table.index_update(i64::MAX as u64 - 1, v);
    assert_eq!(table.nNextFreeElement, i64::MAX);
    // an index beyond the signed range leaves the counter alone
    let mut w = zval::default();
    w.set_long(2);
    table.index_update(u64::MAX, w);
    assert_eq!(table.nNextFreeElement, i64::MAX);
    assert!(table.index_exists(u64::MAX));
}

#[test]
fn clean_empties_but_keeps_capacity() {
    let mut table = zend_array::init(20, None, false);
    let mut v = zval::default();
    v.set_long(1);
    table.str_update_ind(b"x", v);
    let size = table.nTableSize;
    table.clean();
    assert_eq!(table.nNumUsed, 0);
    assert_eq!(table.nNumOfElements, 0);
    assert_eq!(table.nNextFreeElement, 0);
    assert_eq!(table.nTableSize, size);
    assert!(!table.str_exists_ind(b"x"));
}

#[test]
fn capacity_rounds_up_to_powers_of_two() {
    assert_eq!(zend_array::init(0, None, false).nTableSize, 8);
    assert_eq!(zend_array::init(8, None, false).nTableSize, 8);
    assert_eq!(zend_array::init(9, None, false).nTableSize, 16);
    assert_eq!(zend_array::init(100, None, false).nTableSize, 128);
}

#[test]
fn has_more_elements_positions() {
    let mut table = zend_array::init(0, None, false);
    assert!(table.has_more_elements_ex(0).is_failure());
    let mut v = zval::default();
    v.set_long(1);
    table.str_update_ind(b"x", v);
    assert!(table.has_more_elements_ex(0).is_success());
    assert!(table.has_more_elements_ex(1).is_failure());
}

#[test]
fn buckets_iter_skips_tombstones_and_hidden_slots() {
    let mut table = zend_array::init(0, None, false);
    let mut a = zval::default();
    a.set_long(1);
    table.str_update_ind(b"a", a);
    let mut hidden = zval::default();
    hidden.set_indirect(zval::default());
    table.str_update_ind(b"h", hidden);
    let mut b = zval::default();
    b.set_long(2);
    table.str_update_ind(b"b", b);
    table.str_del(b"a");
    let mut it = BucketsIter::from_raw(&table);
    let first = it.next().unwrap();
    let ks = first.key.as_ref().unwrap();
    assert_eq!(&ks.val[..ks.len], b"b");
    assert!(it.next().is_none());
}

#[test]
fn buckets_iter_mut_writes_in_place() {
    let mut arr = Array::new();
    arr.insert(ArrayIndex::Str(b"x".to_vec()), long_zval(1));
    arr.insert(ArrayIndex::Str(b"y".to_vec()), long_zval(2));
    let mut it = BucketsIterMut::from_raw();
    let mut bumped = 0;
    while let Some(v) = it.next(&mut arr.0) {
        let old = match v.value {
            zend_value::Long(l) => l,
            _ => panic!("expected a long"),
        };
        v.set_long(old + 10);
        bumped += 1;
    }
    assert_eq!(bumped, 2);
    let x = arr.get(&ArrayIndex::Str(b"x".to_vec())).unwrap();
    assert!(matches!(x.value, zend_value::Long(11)));
    let y = arr.get(&ArrayIndex::Str(b"y".to_vec())).unwrap();
    assert!(matches!(y.value, zend_value::Long(12)));
}

#[test]
fn zval_array_api() {
    let mut arr = Array::new();
    arr.insert(ArrayIndex::Str(b"k".to_vec()), long_zval(5));
    let Array(table) = arr;
    let mut raw = zval::default();
    raw.set_arr(table);
    let mut z = Zval::read_into_safe(raw);
    assert!(z.key_exists(&ArrayIndex::Str(b"k".to_vec())));
    z.insert(ArrayIndex::Str(b"j".to_vec()), long_zval(6));
    let got = z.get(&ArrayIndex::Str(b"j".to_vec())).unwrap();
    assert!(matches!(got.value, zend_value::Long(6)));
    let r = z.delete(&ArrayIndex::Str(b"k".to_vec()));
    assert!(r.is_success());
    assert!(!z.key_exists(&ArrayIndex::Str(b"k".to_vec())));
}

#[test]
fn array_index_from_zstring() {
    let mut arr = Array::new();
    arr.insert(
        ArrayIndex::from(ZString(zend_string::init(b"zs", false))),
        long_zval(1),
    );
    assert!(arr.key_exists(&ArrayIndex::Str(b"zs".to_vec())));
}
