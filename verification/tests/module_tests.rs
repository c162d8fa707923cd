use zend_safe::function::{function_table, ArgInfo, Function};
use zend_safe::zend::memory::{
    domain_of, release_domain_ok, str_release_domain_ok, AllocDomain, ZEND_MM_ALIGNED_SIZE,
};
use zend_safe::zend::module::{Module, STANDARD_MODULE_HEADER_SIZE, ZEND_MODULE_API_NO};
use zend_safe::zend::types::zend_string;
use zend_safe::{Array, ArrayBuilder};

#[test]
fn aligned_size_rounds_to_eight() {
    assert_eq!(ZEND_MM_ALIGNED_SIZE(0), 0);
    assert_eq!(ZEND_MM_ALIGNED_SIZE(1), 8);
    assert_eq!(ZEND_MM_ALIGNED_SIZE(8), 8);
    assert_eq!(ZEND_MM_ALIGNED_SIZE(9), 16);
    assert_eq!(ZEND_MM_ALIGNED_SIZE(24), 24);
    assert_eq!(ZEND_MM_ALIGNED_SIZE(25), 32);
}

#[test]
fn domain_selection() {
    assert_eq!(domain_of(true), AllocDomain::Persistent);
    assert_eq!(domain_of(false), AllocDomain::Transient);
}

#[test]
fn domain_consistency() {
    let persistent = Array::init(0, None, true);
    // the header records the persistent domain
    assert!(persistent.raw().gc.flags() & 0x80 != 0);
    // releasing through the transient domain is flagged as a violation
    assert!(!release_domain_ok(&persistent.raw().gc, false));
    assert!(release_domain_ok(&persistent.raw().gc, true));

    let transient = Array::init(0, None, false);
    assert!(transient.raw().gc.flags() & 0x80 == 0);
    assert!(release_domain_ok(&transient.raw().gc, false));
    assert!(!release_domain_ok(&transient.raw().gc, true));
}

#[test]
fn string_domain_consistency() {
    let p = zend_string::init(b"p", true);
    assert!(str_release_domain_ok(&p, true));
    assert!(!str_release_domain_ok(&p, false));
    let t = zend_string::init(b"t", false);
    assert!(str_release_domain_ok(&t, false));
    assert!(!str_release_domain_ok(&t, true));
}

#[test]
fn builder_defaults_and_settings() {
    let b = ArrayBuilder::new();
    assert!(!b.persistent);
    assert_eq!(b.initial_min_size, 0);
    assert!(b.value_destructor.is_some());
    let b = b.with_persistent(true).with_initial_min_size(100).with_value_destructor(None);
    assert!(b.persistent);
    assert_eq!(b.initial_min_size, 100);
    assert!(b.value_destructor.is_none());
    let arr = b.build();
    assert_eq!(arr.raw().nTableSize, 128);
    assert!(arr.raw().gc.flags() & 0x80 != 0);
    assert!(arr.raw().pDestructor.is_none());
}

#[test]
fn function_records() {
    let f = Function::new(b"hello".to_vec(), 0x1000);
    assert_eq!(f.fname.as_deref(), Some(b"hello".as_slice()));
    assert_eq!(f.handler, Some(0x1000));
    assert_eq!(f.num_args, 0);

    let args = vec![
        ArgInfo::new(b"self".to_vec(), 0, 0, 0),
        ArgInfo::new(b"x".to_vec(), 1, 0, 0),
        ArgInfo::new(b"y".to_vec(), 0, 0, 1),
    ];
    let g = Function::new_with_args(b"add_up".to_vec(), 0x2000, args);
    assert_eq!(g.num_args, 2);
    assert_eq!(g.arg_info.len(), 3);
    assert_eq!(g.arg_info[1].allow_null, 1);
    assert_eq!(g.arg_info[2].pass_by_reference, 1);
    assert!(g.arg_info[0].class_name.is_none());

    let end = Function::end();
    assert!(end.fname.is_none());
    assert!(end.handler.is_none());
    assert_eq!(end.arg_info.len(), 0);
    assert_eq!(end.num_args, 0);
    assert_eq!(end.flags, 0);
}

#[test]
fn function_table_is_sentinel_terminated() {
    let entries = vec![
        Function::new(b"one".to_vec(), 1),
        Function::new(b"two".to_vec(), 2),
    ];
    let t = function_table(entries);
    assert_eq!(t.len(), 3);
    assert_eq!(t[0].fname.as_deref(), Some(b"one".as_slice()));
    assert_eq!(t[1].fname.as_deref(), Some(b"two".as_slice()));
    assert!(t[2].fname.is_none());
    assert!(t[2].handler.is_none());
}

#[test]
fn module_descriptor_defaults() {
    let m = Module::new_raw(b"demo".to_vec(), b"0.1".to_vec());
    assert_eq!(m.size, STANDARD_MODULE_HEADER_SIZE);
    assert_eq!(m.zend_api, ZEND_MODULE_API_NO);
    assert_eq!(m.zend_debug, 0);
    assert_eq!(m.zts, 0);
    assert_eq!(m.name, b"demo".to_vec());
    assert_eq!(m.version, b"0.1".to_vec());
    assert!(m.functions.is_none());
    assert!(m.module_startup_func.is_none());
    assert_eq!(m.build_id, b"API20151012,NTS".to_vec());
}

#[test]
fn module_setters() {
    let mut m = Module::new(b"demo".to_vec(), b"0.1".to_vec());
    m.set_startup_func(11);
    m.set_shutdown_func(22);
    m.set_info_func(33);
    let t = function_table(vec![Function::new(b"f".to_vec(), 1)]);
    m.set_functions(t);
    assert_eq!(m.module_startup_func, Some(11));
    assert_eq!(m.module_shutdown_func, Some(22));
    assert_eq!(m.info_func, Some(33));
    assert_eq!(m.functions.as_ref().unwrap().len(), 2);
    // untouched slots stay empty
    assert!(m.request_startup_func.is_none());
    assert!(m.post_deactivate_func.is_none());
}
