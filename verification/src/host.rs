use crate::error::ZygiskError;
use crate::raw::v1::ZygiskOption;
use crate::raw::{ApiTableRef, ModuleAbiRef, ZygiskRaw};
use crate::utils::{first_nul, has_nul, to_bytes_with_nul};
use libc::{c_int, dev_t, ino_t};
use vstd::prelude::*;

verus! {

/// The handle of the Java environment that the host passes with every call
/// into the module, kept as the address it was given as.
#[derive(Clone, Copy, Debug, PartialEq, Eq, Structural)]
pub struct JniEnv {
    pub raw: usize,
}

/// Whether `bytes` is a string in the form the host reads: its only NUL byte
/// is its last byte.
pub open spec fn is_c_string(bytes: Seq<u8>) -> bool {
    first_nul(bytes, bytes.len() - 1)
}

/// What a [`NativeMethod`] is made of.
pub struct NativeMethodView {
    pub name: Seq<u8>,
    pub signature: Seq<u8>,
    pub fn_ptr: usize,
}

/// One native method of a Java class: its name, its signature, and the address
/// of the function behind it. Name and signature are kept NUL-terminated, as
/// the host reads them.
#[derive(Debug)]
pub struct NativeMethod {
    name: Vec<u8>,
    signature: Vec<u8>,
    fn_ptr: usize,
}

impl View for NativeMethod {
    type V = NativeMethodView;

    closed spec fn view(&self) -> NativeMethodView {
        NativeMethodView { name: self.name@, signature: self.signature@, fn_ptr: self.fn_ptr }
    }
}

impl NativeMethod {
    #[verifier::type_invariant]
    spec fn well_formed(self) -> bool {
        is_c_string(self.name@) && is_c_string(self.signature@)
    }

    /// A descriptor for the method `name` with the signature `signature`,
    /// bound to the function at `fn_ptr`. Neither string may hold a NUL byte;
    /// the name is looked at first.
    pub fn new(name: &[u8], signature: &[u8], fn_ptr: usize) -> (r: Result<NativeMethod, ZygiskError>)
        ensures
            r is Ok <==> !has_nul(name@) && !has_nul(signature@),
            r matches Ok(m) ==> m@ == (NativeMethodView {
                name: name@.push(0u8),
                signature: signature@.push(0u8),
                fn_ptr,
            }),
            r matches Err(e) ==> exists|i: usize|
                e == ZygiskError::InteriorNul(i) && if has_nul(name@) {
                    first_nul(name@, i as int)
                } else {
                    first_nul(signature@, i as int)
                },
    {
        let name = match to_bytes_with_nul(name) {
            Ok(bytes) => bytes,
            Err(e) => {
                return Err(e);
            },
        };
        let signature = match to_bytes_with_nul(signature) {
            Ok(bytes) => bytes,
            Err(e) => {
                return Err(e);
            },
        };
        Ok(NativeMethod { name, signature, fn_ptr })
    }

    /// The method's name, NUL-terminated.
    pub fn name(&self) -> (name: &Vec<u8>)
        ensures
            name@ == self@.name,
            is_c_string(name@),
    {
        proof {
            use_type_invariant(self);
        }
        &self.name
    }

    /// The method's signature, NUL-terminated.
    pub fn signature(&self) -> (signature: &Vec<u8>)
        ensures
            signature@ == self@.signature,
            is_c_string(signature@),
    {
        proof {
            use_type_invariant(self);
        }
        &self.signature
    }

    /// The address of the function behind the method; 0 where there is none.
    pub fn fn_ptr(&self) -> (fn_ptr: usize)
        ensures
            fn_ptr == self@.fn_ptr,
    {
        self.fn_ptr
    }

    /// Binds the method to the function at `fn_ptr` and leaves its name and
    /// signature as they are.
    pub fn set_fn_ptr(&mut self, fn_ptr: usize)
        ensures
            final(self)@ == (NativeMethodView { fn_ptr, ..old(self)@ }),
    {
        proof {
            use_type_invariant(&*self);
        }
        self.fn_ptr = fn_ptr;
    }
}

/// The calls that a host's table offers, each made through the function at the
/// address `function` taken from the table. An implementation turns the
/// address back into a function of the host and calls it; this crate decides
/// when a call is made and with what. It never hands over a null `function`,
/// nor a string that is not NUL-terminated.
pub trait HostAbi {
    /// Asks the host to hook the native methods of the class `class_name`. The
    /// answer holds, for each descriptor in order, the address the host left
    /// in it: that of the function it replaced, or 0 where it found no match.
    fn hook_jni_native_methods(
        &mut self,
        function: usize,
        env: JniEnv,
        class_name: &[u8],
        methods: &[NativeMethod],
        count: c_int,
    ) -> Vec<usize>
        requires
            function != 0,
            is_c_string(class_name@),
            count == methods@.len(),
    ;

    /// Registers a hook for `symbol` in the images whose name matches `regex`;
    /// the answer is the address of the function that was there before.
    fn plt_hook_register(
        &mut self,
        function: usize,
        regex: &[u8],
        symbol: &[u8],
        replacement: usize,
    ) -> usize
        requires
            function != 0,
            is_c_string(regex@),
            is_c_string(symbol@),
    ;

    /// Registers a hook for `symbol` in the image that `device` and `inode`
    /// name; the answer is the address of the function that was there before.
    fn plt_hook_register_inode(
        &mut self,
        function: usize,
        device: dev_t,
        inode: ino_t,
        symbol: &[u8],
        replacement: usize,
    ) -> usize
        requires
            function != 0,
            is_c_string(symbol@),
    ;

    /// Takes the hooks for `symbol` in the images matching `regex` out of what
    /// the next commit applies.
    fn plt_hook_exclude(&mut self, function: usize, regex: &[u8], symbol: &[u8])
        requires
            function != 0,
            is_c_string(regex@),
            is_c_string(symbol@),
    ;

    /// Applies what was registered and excluded; `true` where that succeeded.
    fn plt_hook_commit(&mut self, function: usize) -> bool
        requires
            function != 0,
    ;

    /// Asks for a connection to the companion process; the answer is a
    /// descriptor, or -1.
    fn connect_companion(&mut self, function: usize, this: usize) -> c_int
        requires
            function != 0,
    ;

    /// Releases the descriptor `fd` of a connection to the companion, once
    /// the work on it is done. The descriptor belongs to the process, so this
    /// goes to the system and not through the host's table.
    fn close_companion(&mut self, fd: c_int)
        requires
            fd != -1,
    ;

    /// Sets one option of the module.
    fn set_option(&mut self, function: usize, this: usize, option: ZygiskOption)
        requires
            function != 0,
    ;

    /// Asks for a descriptor of the module's directory.
    fn get_module_dir(&mut self, function: usize, this: usize) -> c_int
        requires
            function != 0,
    ;

    /// Asks for the state of the process, as a bit pattern.
    fn get_flags(&mut self, function: usize, this: usize) -> u32
        requires
            function != 0,
    ;
}

/// The call through which a host of the revision `V` takes the callbacks of a
/// module of the type `D`.
pub trait HostRegistration<V: ZygiskRaw, D>: HostAbi {
    /// Offers the module's callbacks to the host; `true` where it took them.
    fn register_module(
        &mut self,
        function: usize,
        table: ApiTableRef<'_, V>,
        abi: ModuleAbiRef<'_, V, D>,
    ) -> bool
        requires
            function != 0,
    ;
}

} // verus!
