use crate::error::ZygiskError;
use crate::host::{HostAbi, HostRegistration, JniEnv, NativeMethod, NativeMethodView};
use crate::raw::v1::ZygiskOption;
use crate::raw::v2::{recognized, StateFlags};
use crate::raw::{ApiTableRef, ModuleAbiRef, ZygiskRaw};
use crate::utils::{first_nul, has_nul, to_bytes_with_nul};
use libc::{c_int, c_long, dev_t, ino_t};
use vstd::prelude::*;

pub mod v1;
pub use v1::V1;

pub mod v2;
pub use v2::V2;

pub mod v3;
pub use v3::V3;

pub mod v4;
pub use v4::V4;

pub mod v5;
pub use v5::V5;

verus! {

/// One call that was made to the host: the function it went through, what it
/// was handed, and what the host answered.
#[allow(inconsistent_fields)]
pub enum HostCall {
    RegisterModule { function: usize, api_version: c_long, answer: bool },
    HookJniNativeMethods {
        function: usize,
        env: JniEnv,
        class_name: Seq<u8>,
        methods: Seq<NativeMethodView>,
        count: c_int,
        answer: Seq<usize>,
    },
    PltHookRegister { function: usize, regex: Seq<u8>, symbol: Seq<u8>, replacement: usize, answer: usize },
    PltHookRegisterInode {
        function: usize,
        device: dev_t,
        inode: ino_t,
        symbol: Seq<u8>,
        replacement: usize,
        answer: usize,
    },
    PltHookExclude { function: usize, regex: Seq<u8>, symbol: Seq<u8> },
    PltHookCommit { function: usize, answer: bool },
    ConnectCompanion { function: usize, this: usize, answer: c_int },
    CloseCompanion { fd: c_int },
    SetOption { function: usize, this: usize, option: ZygiskOption },
    GetModuleDir { function: usize, this: usize, answer: c_int },
    GetFlags { function: usize, this: usize, answer: u32 },
}

/// The operations of the host in one revision, over a borrow of its table and
/// of what makes the calls. `log` holds, in order, the calls that were made
/// through these operations.
pub struct ZygiskApi<'a, V: ZygiskRaw, H: HostAbi> {
    pub table: ApiTableRef<'a, V>,
    pub host: &'a mut H,
    pub log: Ghost<Seq<HostCall>>,
}

impl<'a, V: ZygiskRaw, H: HostAbi> ZygiskApi<'a, V, H> {
    /// The operations of the host `host` whose table is `table`, with no call
    /// made yet.
    pub fn new(table: ApiTableRef<'a, V>, host: &'a mut H) -> (api: Self)
        ensures
            api.table == table,
            api.log@ == Seq::<HostCall>::empty(),
            *api.host == *old(host),
            *final(api.host) == *final(host),
    {
        ZygiskApi { table, host, log: Ghost(Seq::empty()) }
    }

    /// The host's table.
    pub open spec fn slots(&self) -> &V::ApiTable {
        self.table.raw
    }

    /// The host's table.
    pub fn dispatch(&self) -> (table: &V::ApiTable)
        ensures
            table == self.slots(),
    {
        self.table.raw
    }

    /// Offers the host the callbacks of the module behind `abi`, and says
    /// whether it took them. Where the host's table has no function to offer
    /// them to, nothing is asked of it.
    pub fn register_module<D>(&mut self, abi: ModuleAbiRef<'_, V, D>) -> (r: Result<bool, ZygiskError>) where
        H: HostRegistration<V, D>,
        ensures
            final(self).table == old(self).table,
            *final(final(self).host) == *final(old(self).host),
            register_outcome(
                V::registration_slot(old(self).slots()),
                abi.raw.api_version,
                old(self).log@,
                final(self).log@,
                r,
            ),
            V::registration_slot(old(self).slots()) == 0 ==> *final(self).host == *old(self).host,
            V::registration_slot(old(self).slots()) != 0 ==> exists|
                h: &mut H,
                table: ApiTableRef<'_, V>,
                answer: bool,
            |
                {
                    &&& *h == *old(self).host
                    &&& *final(h) == *final(self).host
                    &&& table.raw == old(self).table.raw
                    &&& call_ensures(
                        <H as HostRegistration<V, D>>::register_module,
                        (h, V::registration_slot(old(self).slots()), table, abi),
                        answer,
                    )
                    &&& r == Ok::<bool, ZygiskError>(answer)
                },
    {
        let function = V::register_module_fn(ApiTableRef::from_raw(self.table.raw));
        if function == 0 {
            return Err(ZygiskError::Unsupported);
        }
        let answer = self.host.register_module(function, ApiTableRef::from_raw(self.table.raw), abi);
        proof {
            self.log@ = self.log@.push(
                HostCall::RegisterModule { function, api_version: abi.raw.api_version, answer },
            );
        }
        Ok(answer)
    }
}

/// What offering a module of the revision `api_version` through the table's
/// function at `function` comes to: without a function the host is not asked
/// and the offer is not supported; with one the host is asked once and its
/// answer is handed on.
pub open spec fn register_outcome(
    function: usize,
    api_version: c_long,
    before: Seq<HostCall>,
    after: Seq<HostCall>,
    r: Result<bool, ZygiskError>,
) -> bool {
    if function == 0 {
        &&& after == before
        &&& r == Err::<bool, ZygiskError>(ZygiskError::Unsupported)
    } else {
        exists|answer: bool|
            {
                &&& after == before.push(HostCall::RegisterModule { function, api_version, answer })
                &&& r == Ok::<bool, ZygiskError>(answer)
            }
    }
}

/// Whether `e` reports the first NUL byte of `bytes`.
pub open spec fn reports_nul(bytes: Seq<u8>, e: ZygiskError) -> bool {
    exists|i: usize| e == ZygiskError::InteriorNul(i) && first_nul(bytes, i as int)
}

/// What the host's answer to a companion request means: the descriptor, or
/// the failure that the answer -1 stands for.
pub open spec fn companion_answer(fd: c_int) -> Result<c_int, ZygiskError> {
    if fd == -1 {
        Err(ZygiskError::ConnectCompanionFailed)
    } else {
        Ok(fd)
    }
}

/// Reads the host's answer to a companion request.
pub fn companion_result(fd: c_int) -> (r: Result<c_int, ZygiskError>)
    ensures
        r == companion_answer(fd),
{
    if fd == -1 {
        Err(ZygiskError::ConnectCompanionFailed)
    } else {
        Ok(fd)
    }
}

/// What a companion request through the table's function at `function` comes
/// to. Without a function the host is not asked and the request is not
/// supported. With one the host is asked once; where it answers -1 the
/// connection failed, and otherwise `f` ran on the descriptor it answered and
/// the descriptor was released after that.
pub open spec fn companion_outcome<R, F: FnOnce(c_int) -> R>(
    function: usize,
    this: usize,
    f: F,
    before: Seq<HostCall>,
    after: Seq<HostCall>,
    r: Result<R, ZygiskError>,
) -> bool {
    if function == 0 {
        &&& after == before
        &&& r matches Err(e) && e == ZygiskError::Unsupported
    } else {
        exists|fd: c_int|
            if fd == -1 {
                &&& after == before.push(HostCall::ConnectCompanion { function, this, answer: fd })
                &&& r matches Err(e) && e == ZygiskError::ConnectCompanionFailed
            } else {
                &&& after == before.push(HostCall::ConnectCompanion { function, this, answer: fd }).push(
                    HostCall::CloseCompanion { fd },
                )
                &&& r matches Ok(v) && f.ensures((fd,), v)
            }
    }
}

/// Asks the host for a connection to the companion through the function at
/// `function`, runs `f` on the descriptor it answers with, and releases the
/// descriptor.
pub(crate) fn connect_companion_through<H: HostAbi, R, F: FnOnce(c_int) -> R>(
    host: &mut H,
    log: &mut Ghost<Seq<HostCall>>,
    function: usize,
    this: usize,
    f: F,
) -> (r: Result<R, ZygiskError>)
    requires
        forall|fd: c_int| fd != -1 ==> f.requires((fd,)),
    ensures
        companion_outcome(function, this, f, old(log)@, final(log)@, r),
        function == 0 ==> *final(host) == *old(host),
        function != 0 ==> exists|h: &mut H, fd: c_int|
            {
                &&& *h == *old(host)
                &&& call_ensures(<H as HostAbi>::connect_companion, (h, function, this), fd)
                &&& if fd == -1 {
                    &&& *final(h) == *final(host)
                    &&& r matches Err(e) && e == ZygiskError::ConnectCompanionFailed
                } else {
                    exists|closing: &mut H|
                        {
                            &&& *closing == *final(h)
                            &&& *final(closing) == *final(host)
                            &&& call_ensures(<H as HostAbi>::close_companion, (closing, fd), ())
                            &&& r matches Ok(v) && f.ensures((fd,), v)
                        }
                }
            },
{
    if function == 0 {
        return Err(ZygiskError::Unsupported);
    }
    let answer = host.connect_companion(function, this);
    proof {
        log@ = log@.push(HostCall::ConnectCompanion { function, this, answer });
    }
    match companion_result(answer) {
        Err(e) => Err(e),
        Ok(fd) => {
            let v = f(fd);
            host.close_companion(fd);
            proof {
                log@ = log@.push(HostCall::CloseCompanion { fd });
            }
            Ok(v)
        },
    }
}

/// What setting `option` through the table's function at `function` comes
/// to: without a function the host is not asked; with one it is asked once.
pub open spec fn set_option_outcome(
    function: usize,
    this: usize,
    option: ZygiskOption,
    before: Seq<HostCall>,
    after: Seq<HostCall>,
) -> bool {
    if function == 0 {
        after == before
    } else {
        after == before.push(HostCall::SetOption { function, this, option })
    }
}

/// Has the host set `option` through the function at `function`, if there is
/// one.
pub(crate) fn set_option_through<H: HostAbi>(
    host: &mut H,
    log: &mut Ghost<Seq<HostCall>>,
    function: usize,
    this: usize,
    option: ZygiskOption,
)
    ensures
        set_option_outcome(function, this, option, old(log)@, final(log)@),
        function == 0 ==> *final(host) == *old(host),
        function != 0 ==> exists|h: &mut H|
            {
                &&& *h == *old(host)
                &&& *final(h) == *final(host)
                &&& call_ensures(<H as HostAbi>::set_option, (h, function, this, option), ())
            },
{
    if function != 0 {
        host.set_option(function, this, option);
        proof {
            log@ = log@.push(HostCall::SetOption { function, this, option });
        }
    }
}

/// What a request for the module's directory through the table's function at
/// `function` comes to: without a function the host is not asked and the
/// request is not supported; with one the host is asked once and its answer
/// is handed on.
pub open spec fn module_dir_outcome(
    function: usize,
    this: usize,
    before: Seq<HostCall>,
    after: Seq<HostCall>,
    r: Result<c_int, ZygiskError>,
) -> bool {
    if function == 0 {
        &&& after == before
        &&& r == Err::<c_int, ZygiskError>(ZygiskError::Unsupported)
    } else {
        exists|answer: c_int|
            {
                &&& after == before.push(HostCall::GetModuleDir { function, this, answer })
                &&& r == Ok::<c_int, ZygiskError>(answer)
            }
    }
}

/// Asks the host for the module's directory through the function at
/// `function`.
pub(crate) fn module_dir_through<H: HostAbi>(
    host: &mut H,
    log: &mut Ghost<Seq<HostCall>>,
    function: usize,
    this: usize,
) -> (r: Result<c_int, ZygiskError>)
    ensures
        module_dir_outcome(function, this, old(log)@, final(log)@, r),
        function == 0 ==> *final(host) == *old(host),
        function != 0 ==> exists|h: &mut H, answer: c_int|
            {
                &&& *h == *old(host)
                &&& *final(h) == *final(host)
                &&& call_ensures(<H as HostAbi>::get_module_dir, (h, function, this), answer)
                &&& r == Ok::<c_int, ZygiskError>(answer)
            },
{
    if function == 0 {
        return Err(ZygiskError::Unsupported);
    }
    let answer = host.get_module_dir(function, this);
    proof {
        log@ = log@.push(HostCall::GetModuleDir { function, this, answer });
    }
    Ok(answer)
}

/// Whether `r` is what the bit pattern `raw` decodes to: the flags it stands
/// for where every bit set in it is known, and else the error that carries
/// `raw`.
pub open spec fn is_flags_answer(r: Result<StateFlags, ZygiskError>, raw: u32) -> bool {
    if recognized(raw) {
        r matches Ok(flags) && flags@ == raw
    } else {
        r == Err::<StateFlags, ZygiskError>(ZygiskError::UnrecognizedStateFlag(raw))
    }
}

/// Decodes the bit pattern that the host describes the process with.
pub fn flags_result(raw: u32) -> (r: Result<StateFlags, ZygiskError>)
    ensures
        is_flags_answer(r, raw),
{
    match StateFlags::from_bits(raw) {
        Some(flags) => Ok(flags),
        None => Err(ZygiskError::UnrecognizedStateFlag(raw)),
    }
}

/// What a request for the state flags through the table's function at
/// `function` comes to: without a function the host is not asked and the
/// request is not supported; with one the host is asked once and its answer
/// is decoded.
pub open spec fn flags_outcome(
    function: usize,
    this: usize,
    before: Seq<HostCall>,
    after: Seq<HostCall>,
    r: Result<StateFlags, ZygiskError>,
) -> bool {
    if function == 0 {
        &&& after == before
        &&& r == Err::<StateFlags, ZygiskError>(ZygiskError::Unsupported)
    } else {
        exists|answer: u32|
            {
                &&& after == before.push(HostCall::GetFlags { function, this, answer })
                &&& is_flags_answer(r, answer)
            }
    }
}

/// Asks the host for the state of the process through the function at
/// `function`, and decodes its answer.
pub(crate) fn flags_through<H: HostAbi>(
    host: &mut H,
    log: &mut Ghost<Seq<HostCall>>,
    function: usize,
    this: usize,
) -> (r: Result<StateFlags, ZygiskError>)
    ensures
        flags_outcome(function, this, old(log)@, final(log)@, r),
        function == 0 ==> *final(host) == *old(host),
        function != 0 ==> exists|h: &mut H, answer: u32|
            {
                &&& *h == *old(host)
                &&& *final(h) == *final(host)
                &&& call_ensures(<H as HostAbi>::get_flags, (h, function, this), answer)
                &&& is_flags_answer(r, answer)
            },
{
    if function == 0 {
        return Err(ZygiskError::Unsupported);
    }
    let answer = host.get_flags(function, this);
    proof {
        log@ = log@.push(HostCall::GetFlags { function, this, answer });
    }
    flags_result(answer)
}

/// The address that the host left in the descriptor at `i`: the one it
/// answered with, or 0, "no match", where its answer is too short.
pub open spec fn hooked_fn_ptr(results: Seq<usize>, i: int) -> usize {
    if 0 <= i < results.len() {
        results[i]
    } else {
        0
    }
}

/// Whether `after` is `before` with the host's answer `results` written into
/// it: the descriptors are as many as before and keep their names and
/// signatures, and each holds the address that the host left for it.
pub open spec fn hooks_applied(
    before: Seq<NativeMethod>,
    after: Seq<NativeMethod>,
    results: Seq<usize>,
) -> bool {
    &&& after.len() == before.len()
    &&& forall|i: int|
        0 <= i < before.len() ==> (#[trigger] after[i])@ == (NativeMethodView {
            fn_ptr: hooked_fn_ptr(results, i),
            ..before[i]@
        })
}

/// Where the host answered for every descriptor, the descriptor at `i` keeps
/// its name and its signature and holds the address that the host answered
/// for it: that of the function that was replaced, or 0 for "no match".
pub proof fn lemma_hooks_applied(
    before: Seq<NativeMethod>,
    after: Seq<NativeMethod>,
    results: Seq<usize>,
    i: int,
)
    requires
        hooks_applied(before, after, results),
        results.len() == before.len(),
        0 <= i < before.len(),
    ensures
        after.len() == before.len(),
        after[i]@.name == before[i]@.name,
        after[i]@.signature == before[i]@.signature,
        after[i]@.fn_ptr == results[i],
{
}

/// The functions that a host has bound to native methods, by the class, the
/// name and the signature of each method, all three NUL-terminated.
pub type BoundMethods = Map<(Seq<u8>, Seq<u8>, Seq<u8>), usize>;

/// Whether `answer` is what a host that keeps to the ABI answers a request to
/// hook `methods` in the class `class_name` with, where `bound` is what it
/// has bound before the request: one address for each descriptor, which is
/// that of the function bound to the descriptor's method, or 0 where nothing
/// is bound to it.
pub open spec fn answers_by_match(
    bound: BoundMethods,
    class_name: Seq<u8>,
    methods: Seq<NativeMethodView>,
    answer: Seq<usize>,
) -> bool {
    &&& answer.len() == methods.len()
    &&& forall|i: int|
        0 <= i < methods.len() ==> #[trigger] answer[i] == if bound.contains_key(
            (class_name, methods[i].name, methods[i].signature),
        ) {
            bound[(class_name, methods[i].name, methods[i].signature)]
        } else {
            0
        }
}

/// With a host that keeps to the ABI, a hook request leaves as many
/// descriptors as it found, each under its name and signature; one whose
/// method the host had a function bound to holds the address of that
/// function, and every other one holds 0.
pub proof fn lemma_hooks_by_match(
    bound: BoundMethods,
    class_name: Seq<u8>,
    before: Seq<NativeMethod>,
    after: Seq<NativeMethod>,
    answer: Seq<usize>,
)
    requires
        hooks_applied(before, after, answer),
        answers_by_match(bound, class_name, views(before), answer),
    ensures
        after.len() == before.len(),
        forall|i: int|
            0 <= i < before.len() ==> {
                let key = (class_name, before[i]@.name, before[i]@.signature);
                &&& (#[trigger] after[i])@.name == before[i]@.name
                &&& after[i]@.signature == before[i]@.signature
                &&& bound.contains_key(key) ==> after[i]@.fn_ptr == bound[key]
                &&& !bound.contains_key(key) ==> after[i]@.fn_ptr == 0
            },
{
}

/// Writes the host's answer to a hook request into the descriptors: each gets
/// the address that the host left for it, which is that of the function it
/// replaced, or 0 where the host found no match. Names and signatures stay.
pub fn apply_hook_results(methods: &mut Vec<NativeMethod>, results: &Vec<usize>)
    ensures
        hooks_applied(old(methods)@, final(methods)@, results@),
{
    let mut i: usize = 0;
    while i < methods.len()
        invariant
            i <= methods@.len(),
            methods@.len() == old(methods)@.len(),
            forall|j: int|
                0 <= j < i ==> (#[trigger] methods@[j])@ == (NativeMethodView {
                    fn_ptr: hooked_fn_ptr(results@, j),
                    ..old(methods)@[j]@
                }),
            forall|j: int| i <= j < methods@.len() ==> methods@[j] == old(methods)@[j],
        decreases methods@.len() - i,
    {
        let fn_ptr: usize = if i < results.len() {
            results[i]
        } else {
            0
        };
        methods[i].set_fn_ptr(fn_ptr);
        i += 1;
    }
}

/// What the descriptors `methods` are made of, one by one.
pub open spec fn views(methods: Seq<NativeMethod>) -> Seq<NativeMethodView> {
    methods.map_values(|m: NativeMethod| m@)
}

/// What a request to hook the native methods of the class `class_name`
/// through the table's function at `function` comes to. A class name with a
/// NUL byte is reported, and then a missing function; either way the host is
/// not asked and the descriptors stay as they were. Otherwise the host is
/// asked once, with the class name in its NUL-terminated form and with the
/// descriptors and their number, and the descriptors then hold what it
/// answered.
pub open spec fn hook_outcome(
    function: usize,
    env: JniEnv,
    class_name: Seq<u8>,
    methods_before: Seq<NativeMethod>,
    methods_after: Seq<NativeMethod>,
    before: Seq<HostCall>,
    after: Seq<HostCall>,
    r: Result<(), ZygiskError>,
) -> bool {
    if has_nul(class_name) {
        &&& r matches Err(e) && reports_nul(class_name, e)
        &&& methods_after == methods_before
        &&& after == before
    } else if function == 0 {
        &&& r == Err::<(), ZygiskError>(ZygiskError::Unsupported)
        &&& methods_after == methods_before
        &&& after == before
    } else {
        &&& r is Ok
        &&& exists|answer: Seq<usize>|
            {
                &&& after == before.push(
                    HostCall::HookJniNativeMethods {
                        function,
                        env,
                        class_name: class_name.push(0u8),
                        methods: views(methods_before),
                        count: methods_before.len() as c_int,
                        answer,
                    },
                )
                &&& hooks_applied(methods_before, methods_after, answer)
            }
    }
}

/// Has the host hook the native methods of the class `class_name` through the
/// function at `function`, and writes its answer into `methods`.
pub(crate) fn hook_jni_native_methods_through<H: HostAbi>(
    host: &mut H,
    log: &mut Ghost<Seq<HostCall>>,
    function: usize,
    env: JniEnv,
    class_name: &[u8],
    methods: &mut Vec<NativeMethod>,
) -> (r: Result<(), ZygiskError>)
    requires
        old(methods)@.len() <= c_int::MAX,
    ensures
        hook_outcome(
            function,
            env,
            class_name@,
            old(methods)@,
            final(methods)@,
            old(log)@,
            final(log)@,
            r,
        ),
        r is Err ==> *final(host) == *old(host),
        !has_nul(class_name@) && function != 0 ==> exists|
            h: &mut H,
            class: &[u8],
            descriptors: &[NativeMethod],
            count: c_int,
            answer: Vec<usize>,
        |
            {
                &&& *h == *old(host)
                &&& *final(h) == *final(host)
                &&& class@ == class_name@.push(0u8)
                &&& descriptors@ == old(methods)@
                &&& count == old(methods)@.len()
                &&& call_ensures(
                    <H as HostAbi>::hook_jni_native_methods,
                    (h, function, env, class, descriptors, count),
                    answer,
                )
                &&& hooks_applied(old(methods)@, final(methods)@, answer@)
            },
{
    let class_name = match to_bytes_with_nul(class_name) {
        Ok(bytes) => bytes,
        Err(e) => {
            return Err(e);
        },
    };
    if function == 0 {
        return Err(ZygiskError::Unsupported);
    }
    let count = methods.len() as c_int;
    let answer = host.hook_jni_native_methods(
        function,
        env,
        class_name.as_slice(),
        methods.as_slice(),
        count,
    );
    proof {
        log@ = log@.push(
            HostCall::HookJniNativeMethods {
                function,
                env,
                class_name: class_name@,
                methods: views(methods@),
                count,
                answer: answer@,
            },
        );
    }
    apply_hook_results(methods, &answer);
    Ok(())
}

/// What a request to register a hook for `symbol` in the images matching
/// `regex`, through the table's function at `function`, comes to. A NUL byte
/// in `regex` is reported first, then one in `symbol`, then a missing
/// function; in each case the host is not asked. Otherwise the host is asked
/// once, with both strings in their NUL-terminated form, and its answer is
/// handed on.
pub open spec fn pattern_hook_outcome(
    function: usize,
    regex: Seq<u8>,
    symbol: Seq<u8>,
    replacement: usize,
    before: Seq<HostCall>,
    after: Seq<HostCall>,
    r: Result<usize, ZygiskError>,
) -> bool {
    if has_nul(regex) {
        &&& r matches Err(e) && reports_nul(regex, e)
        &&& after == before
    } else if has_nul(symbol) {
        &&& r matches Err(e) && reports_nul(symbol, e)
        &&& after == before
    } else if function == 0 {
        &&& r == Err::<usize, ZygiskError>(ZygiskError::Unsupported)
        &&& after == before
    } else {
        exists|answer: usize|
            {
                &&& after == before.push(
                    HostCall::PltHookRegister {
                        function,
                        regex: regex.push(0u8),
                        symbol: symbol.push(0u8),
                        replacement,
                        answer,
                    },
                )
                &&& r == Ok::<usize, ZygiskError>(answer)
            }
    }
}

/// Registers a hook by pattern through the function at `function`.
pub(crate) fn plt_hook_register_through<H: HostAbi>(
    host: &mut H,
    log: &mut Ghost<Seq<HostCall>>,
    function: usize,
    regex: &[u8],
    symbol: &[u8],
    replacement: usize,
) -> (r: Result<usize, ZygiskError>)
    ensures
        pattern_hook_outcome(function, regex@, symbol@, replacement, old(log)@, final(log)@, r),
        r is Err ==> *final(host) == *old(host),
        !has_nul(regex@) && !has_nul(symbol@) && function != 0 ==> exists|
            h: &mut H,
            pattern: &[u8],
            name: &[u8],
            answer: usize,
        |
            {
                &&& *h == *old(host)
                &&& *final(h) == *final(host)
                &&& pattern@ == regex@.push(0u8)
                &&& name@ == symbol@.push(0u8)
                &&& call_ensures(
                    <H as HostAbi>::plt_hook_register,
                    (h, function, pattern, name, replacement),
                    answer,
                )
                &&& r == Ok::<usize, ZygiskError>(answer)
            },
{
    let regex = match to_bytes_with_nul(regex) {
        Ok(bytes) => bytes,
        Err(e) => {
            return Err(e);
        },
    };
    let symbol = match to_bytes_with_nul(symbol) {
        Ok(bytes) => bytes,
        Err(e) => {
            return Err(e);
        },
    };
    if function == 0 {
        return Err(ZygiskError::Unsupported);
    }
    let answer = host.plt_hook_register(function, regex.as_slice(), symbol.as_slice(), replacement);
    proof {
        log@ = log@.push(
            HostCall::PltHookRegister { function, regex: regex@, symbol: symbol@, replacement, answer },
        );
    }
    Ok(answer)
}

/// What a request to register a hook for `symbol` in the image that `device`
/// and `inode` name, through the table's function at `function`, comes to. A
/// NUL byte in `symbol` is reported first, then a missing function; in each
/// case the host is not asked. Otherwise the host is asked once, with the
/// symbol in its NUL-terminated form, and its answer is handed on.
pub open spec fn inode_hook_outcome(
    function: usize,
    device: dev_t,
    inode: ino_t,
    symbol: Seq<u8>,
    replacement: usize,
    before: Seq<HostCall>,
    after: Seq<HostCall>,
    r: Result<usize, ZygiskError>,
) -> bool {
    if has_nul(symbol) {
        &&& r matches Err(e) && reports_nul(symbol, e)
        &&& after == before
    } else if function == 0 {
        &&& r == Err::<usize, ZygiskError>(ZygiskError::Unsupported)
        &&& after == before
    } else {
        exists|answer: usize|
            {
                &&& after == before.push(
                    HostCall::PltHookRegisterInode {
                        function,
                        device,
                        inode,
                        symbol: symbol.push(0u8),
                        replacement,
                        answer,
                    },
                )
                &&& r == Ok::<usize, ZygiskError>(answer)
            }
    }
}

/// Registers a hook by device and inode through the function at `function`.
pub(crate) fn plt_hook_register_inode_through<H: HostAbi>(
    host: &mut H,
    log: &mut Ghost<Seq<HostCall>>,
    function: usize,
    device: dev_t,
    inode: ino_t,
    symbol: &[u8],
    replacement: usize,
) -> (r: Result<usize, ZygiskError>)
    ensures
        inode_hook_outcome(
            function,
            device,
            inode,
            symbol@,
            replacement,
            old(log)@,
            final(log)@,
            r,
        ),
        r is Err ==> *final(host) == *old(host),
        !has_nul(symbol@) && function != 0 ==> exists|h: &mut H, name: &[u8], answer: usize|
            {
                &&& *h == *old(host)
                &&& *final(h) == *final(host)
                &&& name@ == symbol@.push(0u8)
                &&& call_ensures(
                    <H as HostAbi>::plt_hook_register_inode,
                    (h, function, device, inode, name, replacement),
                    answer,
                )
                &&& r == Ok::<usize, ZygiskError>(answer)
            },
{
    let symbol = match to_bytes_with_nul(symbol) {
        Ok(bytes) => bytes,
        Err(e) => {
            return Err(e);
        },
    };
    if function == 0 {
        return Err(ZygiskError::Unsupported);
    }
    let answer = host.plt_hook_register_inode(function, device, inode, symbol.as_slice(), replacement);
    proof {
        log@ = log@.push(
            HostCall::PltHookRegisterInode {
                function,
                device,
                inode,
                symbol: symbol@,
                replacement,
                answer,
            },
        );
    }
    Ok(answer)
}

/// What a request to exclude the hooks for `symbol` in the images matching
/// `regex`, through the table's function at `function`, comes to. A NUL byte
/// in `regex` is reported first, then one in `symbol`. Otherwise the request
/// succeeds: without a function the host is not asked, with one it is asked
/// once, with both strings in their NUL-terminated form.
pub open spec fn exclude_outcome(
    function: usize,
    regex: Seq<u8>,
    symbol: Seq<u8>,
    before: Seq<HostCall>,
    after: Seq<HostCall>,
    r: Result<(), ZygiskError>,
) -> bool {
    if has_nul(regex) {
        &&& r matches Err(e) && reports_nul(regex, e)
        &&& after == before
    } else if has_nul(symbol) {
        &&& r matches Err(e) && reports_nul(symbol, e)
        &&& after == before
    } else if function == 0 {
        &&& r is Ok
        &&& after == before
    } else {
        &&& r is Ok
        &&& after == before.push(
            HostCall::PltHookExclude { function, regex: regex.push(0u8), symbol: symbol.push(0u8) },
        )
    }
}

/// Has the host exclude hooks through the function at `function`, if there is
/// one.
pub(crate) fn plt_hook_exclude_through<H: HostAbi>(
    host: &mut H,
    log: &mut Ghost<Seq<HostCall>>,
    function: usize,
    regex: &[u8],
    symbol: &[u8],
) -> (r: Result<(), ZygiskError>)
    ensures
        exclude_outcome(function, regex@, symbol@, old(log)@, final(log)@, r),
        r is Err || function == 0 ==> *final(host) == *old(host),
        !has_nul(regex@) && !has_nul(symbol@) && function != 0 ==> exists|
            h: &mut H,
            pattern: &[u8],
            name: &[u8],
        |
            {
                &&& *h == *old(host)
                &&& *final(h) == *final(host)
                &&& pattern@ == regex@.push(0u8)
                &&& name@ == symbol@.push(0u8)
                &&& call_ensures(<H as HostAbi>::plt_hook_exclude, (h, function, pattern, name), ())
            },
{
    let regex = match to_bytes_with_nul(regex) {
        Ok(bytes) => bytes,
        Err(e) => {
            return Err(e);
        },
    };
    let symbol = match to_bytes_with_nul(symbol) {
        Ok(bytes) => bytes,
        Err(e) => {
            return Err(e);
        },
    };
    if function != 0 {
        host.plt_hook_exclude(function, regex.as_slice(), symbol.as_slice());
        proof {
            log@ = log@.push(HostCall::PltHookExclude { function, regex: regex@, symbol: symbol@ });
        }
    }
    Ok(())
}

/// What the host's answer to a commit means.
pub open spec fn commit_answer(committed: bool) -> Result<(), ZygiskError> {
    if committed {
        Ok(())
    } else {
        Err(ZygiskError::PltHookCommitError)
    }
}

/// Reads the host's answer to a commit.
pub fn commit_result(committed: bool) -> (r: Result<(), ZygiskError>)
    ensures
        r == commit_answer(committed),
{
    if committed {
        Ok(())
    } else {
        Err(ZygiskError::PltHookCommitError)
    }
}

/// What a commit through the table's function at `function` comes to: without
/// a function the host is not asked and the commit is not supported; with one
/// the host is asked once and the commit ends as its answer has it.
pub open spec fn commit_outcome(
    function: usize,
    before: Seq<HostCall>,
    after: Seq<HostCall>,
    r: Result<(), ZygiskError>,
) -> bool {
    if function == 0 {
        &&& after == before
        &&& r == Err::<(), ZygiskError>(ZygiskError::Unsupported)
    } else {
        exists|answer: bool|
            {
                &&& after == before.push(HostCall::PltHookCommit { function, answer })
                &&& r == commit_answer(answer)
            }
    }
}

/// A commit keeps nothing back for the next one: of two commits in a row each
/// asks the host once, through the same function, and each fails exactly
/// where the host answered it with a failure, whatever the other came to.
pub proof fn lemma_commit_again(
    function: usize,
    before: Seq<HostCall>,
    between: Seq<HostCall>,
    after: Seq<HostCall>,
    first: Result<(), ZygiskError>,
    second: Result<(), ZygiskError>,
)
    requires
        function != 0,
        commit_outcome(function, before, between, first),
        commit_outcome(function, between, after, second),
    ensures
        after.len() == before.len() + 2,
        after.subrange(0, before.len() as int) == before,
        after[before.len() as int] matches HostCall::PltHookCommit { function: f, answer }
            && f == function && first == commit_answer(answer),
        after[before.len() as int + 1] matches HostCall::PltHookCommit { function: f, answer }
            && f == function && second == commit_answer(answer),
{
    assert(after.subrange(0, before.len() as int) =~= before);
}

/// Has the host commit through the function at `function`, and reads its
/// answer.
pub(crate) fn plt_hook_commit_through<H: HostAbi>(
    host: &mut H,
    log: &mut Ghost<Seq<HostCall>>,
    function: usize,
) -> (r: Result<(), ZygiskError>)
    ensures
        commit_outcome(function, old(log)@, final(log)@, r),
        function == 0 ==> *final(host) == *old(host),
        function != 0 ==> exists|h: &mut H, answer: bool|
            {
                &&& *h == *old(host)
                &&& *final(h) == *final(host)
                &&& call_ensures(<H as HostAbi>::plt_hook_commit, (h, function), answer)
                &&& r == commit_answer(answer)
            },
{
    if function == 0 {
        return Err(ZygiskError::Unsupported);
    }
    let answer = host.plt_hook_commit(function);
    proof {
        log@ = log@.push(HostCall::PltHookCommit { function, answer });
    }
    commit_result(answer)
}

} // verus!
