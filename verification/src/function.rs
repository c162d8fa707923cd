//! Host-callable function entries: plain records that name a handler and
//! its argument descriptors, terminated by an all-empty sentinel when they
//! stand in a descriptor table.
//!
//! Callback references are kept as opaque address tokens; the foreign
//! layer holds the real function pointers.
use vstd::prelude::*;

verus! {

/// Opaque reference to a request-startup/shutdown callback.
pub type StartupFunc = u64;

pub type ShutdownFunc = u64;

/// Opaque reference to a module-info callback.
pub type InfoFunc = u64;

pub type GlobalsCtorFunc = u64;

pub type GlobalsDtorFunc = u64;

pub type PostDeactivateFunc = u64;

/// Opaque reference to a function handler.
pub type HandlerFunc = u64;

/// One argument descriptor of a published function.
#[derive(PartialEq, Eq, Debug)]
pub struct ArgInfo {
    pub name: Vec<u8>,
    pub class_name: Option<Vec<u8>>,
    pub type_hint: u8,
    pub pass_by_reference: u8,
    pub allow_null: u8,
    pub is_variadic: u8,
}

impl ArgInfo {
    pub fn new(name: Vec<u8>, allow_null: u8, is_variadic: u8, pass_by_reference: u8) -> (r:
        ArgInfo)
        ensures
            r.name == name,
            r.class_name is None,
            r.type_hint == 0,
            r.pass_by_reference == pass_by_reference,
            r.allow_null == allow_null,
            r.is_variadic == is_variadic,
    {
        ArgInfo {
            name,
            class_name: None,
            type_hint: 0,
            pass_by_reference,
            allow_null,
            is_variadic,
        }
    }
}

/// One published function: its name, handler, and argument descriptors.
/// The all-empty record is the sentinel that terminates a function table.
#[derive(PartialEq, Eq, Debug)]
pub struct Function {
    pub fname: Option<Vec<u8>>,
    pub handler: Option<HandlerFunc>,
    pub arg_info: Vec<ArgInfo>,
    pub num_args: u32,
    pub flags: u32,
}

impl Function {
    /// The terminating record: every field zero or null.
    pub open spec fn is_sentinel(self) -> bool {
        &&& self.fname is None
        &&& self.handler is None
        &&& self.arg_info@.len() == 0
        &&& self.num_args == 0
        &&& self.flags == 0
    }

    pub fn new(name: Vec<u8>, handler: HandlerFunc) -> (r: Function)
        ensures
            r.fname == Some(name),
            r.handler == Some(handler),
            r.arg_info@.len() == 0,
            r.num_args == 0,
            r.flags == 0,
            !r.is_sentinel(),
    {
        Function { fname: Some(name), handler: Some(handler), arg_info: Vec::new(), num_args: 0, flags: 0 }
    }

    /// As `new`, with argument descriptors; the first descriptor carries
    /// table-level data, so it is not counted in `num_args`.
    pub fn new_with_args(name: Vec<u8>, handler: HandlerFunc, args: Vec<ArgInfo>) -> (r: Function)
        requires
            1 <= args@.len() <= u32::MAX,
        ensures
            r.fname == Some(name),
            r.handler == Some(handler),
            r.arg_info == args,
            r.num_args == args@.len() - 1,
            r.flags == 0,
            !r.is_sentinel(),
    {
        let num_args = args.len() as u32;
        Function {
            fname: Some(name),
            handler: Some(handler),
            arg_info: args,
            num_args: num_args - 1,
            flags: 0,
        }
    }

    /// The sentinel that ends a function table.
    pub fn end() -> (r: Function)
        ensures
            r.is_sentinel(),
    {
        Function { fname: None, handler: None, arg_info: Vec::new(), num_args: 0, flags: 0 }
    }
}

/// Builds a host function table from its entries: the entries in order,
/// then the terminating sentinel, which the host requires as the last
/// record of every table.
pub fn function_table(entries: Vec<Function>) -> (t: Vec<Function>)
    ensures
        t@.len() == entries@.len() + 1,
        forall|i: int| 0 <= i < entries@.len() ==> t@[i] == entries@[i],
        t@.last().is_sentinel(),
{
    let mut t = entries;
    t.push(Function::end());
    t
}

} // verus!
