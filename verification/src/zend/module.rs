//! The module descriptor: the fixed-layout record a loadable module hands
//! to the host at load time.  The host validates the declared `size`
//! against the record's real memory size, and requires the function table
//! to end in an all-empty sentinel.
use vstd::prelude::*;
use crate::function::{Function, InfoFunc, ShutdownFunc, StartupFunc};

verus! {

/// Module dependency record (unused by this layer).
#[derive(Clone, Copy, PartialEq, Eq, Structural, Debug)]
pub struct ModuleDep {}

/// Configuration entry record (unused by this layer).
#[derive(Clone, Copy, PartialEq, Eq, Structural, Debug)]
pub struct INI {}

/// The memory size of the raw descriptor on an LP64 machine; the host
/// checks the declared size against it for ABI compatibility.
pub const STANDARD_MODULE_HEADER_SIZE: u16 = 168;

/// The host ABI version this descriptor is built for.
pub const ZEND_MODULE_API_NO: u32 = 20151012;

/// The module descriptor.  Callback slots hold opaque address tokens; the
/// foreign layer holds the real pointers.
#[derive(PartialEq, Eq, Debug)]
pub struct Module {
    pub size: u16,
    pub zend_api: u32,
    pub zend_debug: u8,
    pub zts: u8,
    pub ini_entry: Option<INI>,
    pub deps: Option<ModuleDep>,
    pub name: Vec<u8>,
    pub functions: Option<Vec<Function>>,
    pub module_startup_func: Option<StartupFunc>,
    pub module_shutdown_func: Option<ShutdownFunc>,
    pub request_startup_func: Option<StartupFunc>,
    pub request_shutdown_func: Option<ShutdownFunc>,
    pub info_func: Option<InfoFunc>,
    pub version: Vec<u8>,
    pub globals_size: u64,
    pub globals_ctor: Option<u64>,
    pub globals_dtor: Option<u64>,
    pub post_deactivate_func: Option<u64>,
    pub module_started: i32,
    pub type_: u8,
    pub handle: Option<u64>,
    pub module_number: i32,
    pub build_id: Vec<u8>,
}

impl Module {
    /// A fresh descriptor: the standard header (size, ABI version, build
    /// id), the given name and version, and every optional slot empty.
    pub fn new_raw(name: Vec<u8>, version: Vec<u8>) -> (m: Module)
        ensures
            m.size == STANDARD_MODULE_HEADER_SIZE,
            m.zend_api == ZEND_MODULE_API_NO,
            m.zend_debug == 0,
            m.zts == 0,
            m.ini_entry is None,
            m.deps is None,
            m.name == name,
            m.functions is None,
            m.module_startup_func is None,
            m.module_shutdown_func is None,
            m.request_startup_func is None,
            m.request_shutdown_func is None,
            m.info_func is None,
            m.version == version,
            m.globals_size == 0,
            m.globals_ctor is None,
            m.globals_dtor is None,
            m.post_deactivate_func is None,
            m.module_started == 0,
            m.type_ == 0,
            m.handle is None,
            m.module_number == 0,
            m.build_id@ =~= seq![
                65u8, 80, 73, 50, 48, 49, 53, 49, 48, 49, 50, 44, 78, 84, 83,
            ],
    {
        let mut build_id: Vec<u8> = Vec::new();
        build_id.push(65);  // 'A'
        build_id.push(80);  // 'P'
        build_id.push(73);  // 'I'
        build_id.push(50);  // '2'
        build_id.push(48);  // '0'
        build_id.push(49);  // '1'
        build_id.push(53);  // '5'
        build_id.push(49);  // '1'
        build_id.push(48);  // '0'
        build_id.push(49);  // '1'
        build_id.push(50);  // '2'
        build_id.push(44);  // ','
        build_id.push(78);  // 'N'
        build_id.push(84);  // 'T'
        build_id.push(83);  // 'S'
        Module {
            size: STANDARD_MODULE_HEADER_SIZE,
            zend_api: ZEND_MODULE_API_NO,
            zend_debug: 0,
            zts: 0,
            ini_entry: None,
            deps: None,
            name,
            functions: None,
            module_startup_func: None,
            module_shutdown_func: None,
            request_startup_func: None,
            request_shutdown_func: None,
            info_func: None,
            version,
            globals_size: 0,
            globals_ctor: None,
            globals_dtor: None,
            post_deactivate_func: None,
            module_started: 0,
            type_: 0,
            handle: None,
            module_number: 0,
            build_id,
        }
    }

    /// A fresh descriptor, boxed.
    pub fn new(name: Vec<u8>, version: Vec<u8>) -> (m: Box<Module>)
        ensures
            m.size == STANDARD_MODULE_HEADER_SIZE,
            m.zend_api == ZEND_MODULE_API_NO,
            m.name == name,
            m.version == version,
            m.functions is None,
            m.module_startup_func is None,
            m.module_shutdown_func is None,
            m.info_func is None,
    {
        Box::new(Module::new_raw(name, version))
    }

    pub fn set_startup_func(&mut self, func: StartupFunc)
        ensures
            *final(self) == (Module { module_startup_func: Some(func), ..*old(self) }),
    {
        self.module_startup_func = Some(func);
    }

    pub fn set_shutdown_func(&mut self, func: ShutdownFunc)
        ensures
            *final(self) == (Module { module_shutdown_func: Some(func), ..*old(self) }),
    {
        self.module_shutdown_func = Some(func);
    }

    pub fn set_info_func(&mut self, func: InfoFunc)
        ensures
            *final(self) == (Module { info_func: Some(func), ..*old(self) }),
    {
        self.info_func = Some(func);
    }

    /// Installs the published function table.  The host reads the table up
    /// to its sentinel, so the last entry must be one.
    pub fn set_functions(&mut self, funcs: Vec<Function>)
        requires
            funcs@.len() >= 1,
            funcs@.last().is_sentinel(),
        ensures
            *final(self) == (Module { functions: Some(funcs), ..*old(self) }),
    {
        self.functions = Some(funcs);
    }
}

} // verus!
