use crate::api::{HostCall, ZygiskApi};
use crate::host::{HostAbi, JniEnv};
use crate::impl_sealing::Sealed;
use crate::ZygiskModule;
use libc::c_long;
use vstd::prelude::*;

pub mod v1;
pub mod v2;
pub mod v3;
pub mod v4;
pub mod v5;

verus! {

/// The record that callbacks are dispatched through: the module, a borrow of
/// the host's table and the environment handle of the load. It is built once
/// per load and kept for as long as the process lives, since the host holds on
/// to it.
pub struct RawModule<'a, V: ZygiskRaw, D> {
    pub dispatch: D,
    pub api_table: ApiTableRef<'a, V>,
    pub jni_env: JniEnv,
}

/// A borrowed view of the host's table of one revision. The table belongs to
/// the host: it is never copied, and is only ever reached through such a
/// borrow.
pub struct ApiTableRef<'a, V: ZygiskRaw> {
    pub raw: &'a V::ApiTable,
}

impl<'a, V: ZygiskRaw> ApiTableRef<'a, V> {
    /// A view of the table `api_tbl`.
    pub fn from_raw(api_tbl: &'a V::ApiTable) -> (table: Self)
        ensures
            table.raw == api_tbl,
    {
        ApiTableRef { raw: api_tbl }
    }
}

/// What the host is given to call the module back: the revision the module
/// was built for and the record to dispatch through. The four callbacks that
/// the host's layout lists after these are the methods
/// [`pre_app_specialize`](Self::pre_app_specialize),
/// [`post_app_specialize`](Self::post_app_specialize),
/// [`pre_server_specialize`](Self::pre_server_specialize) and
/// [`post_server_specialize`](Self::post_server_specialize).
pub struct ModuleAbi<'a, V: ZygiskRaw, D> {
    pub api_version: c_long,
    pub this: RawModule<'a, V, D>,
}

/// The addresses of the four functions that the host calls a module back
/// through, in the order the host's layout lists them.
#[derive(Clone, Copy, Debug, PartialEq, Eq)]
pub struct Callbacks {
    pub pre_app_specialize_fn: usize,
    pub post_app_specialize_fn: usize,
    pub pre_server_specialize_fn: usize,
    pub post_server_specialize_fn: usize,
}

/// The number of pointer-sized words that the host reads of what it is given
/// to call a module back.
pub const MODULE_ABI_WORDS: usize = 6;

impl<'a, V: ZygiskRaw, D> ModuleAbi<'a, V, D> {
    /// The words that the host reads: the revision, the address `this` of the
    /// record to dispatch through, and the four callbacks.
    pub open spec fn words(&self, this: usize, callbacks: Callbacks) -> Seq<usize> {
        seq![
            self.api_version as usize,
            this,
            callbacks.pre_app_specialize_fn,
            callbacks.post_app_specialize_fn,
            callbacks.pre_server_specialize_fn,
            callbacks.post_server_specialize_fn,
        ]
    }

    /// Lays out what the host reads, for a record that is kept at the address
    /// `this` and callbacks at the addresses `callbacks`.
    pub fn to_words(&self, this: usize, callbacks: &Callbacks) -> (words: Vec<usize>)
        ensures
            words@ == self.words(this, *callbacks),
            words@.len() == MODULE_ABI_WORDS,
    {
        let mut words: Vec<usize> = Vec::with_capacity(MODULE_ABI_WORDS);
        words.push(self.api_version as usize);
        words.push(this);
        words.push(callbacks.pre_app_specialize_fn);
        words.push(callbacks.post_app_specialize_fn);
        words.push(callbacks.pre_server_specialize_fn);
        words.push(callbacks.post_server_specialize_fn);
        words
    }
}

/// The start of every revision's table: the host's handle of the session and
/// the function that takes a module's callbacks.
#[derive(Clone, Copy, Debug, PartialEq, Eq)]
pub struct BaseApi {
    pub this: usize,
    pub register_module_fn: usize,
}

/// A borrow of a [`ModuleAbi`], as it is handed to the host at registration.
pub struct ModuleAbiRef<'a, V: ZygiskRaw, D> {
    pub raw: &'a ModuleAbi<'a, V, D>,
}

impl<'a, V: ZygiskRaw, D> ModuleAbiRef<'a, V, D> {
    /// A borrow of `module_abi`.
    pub fn from_raw(module_abi: &'a ModuleAbi<'a, V, D>) -> (abi: Self)
        ensures
            abi.raw == module_abi,
    {
        ModuleAbiRef { raw: module_abi }
    }
}

/// The arguments of a specialization. A module may change some of them
/// before the process is specialized and may only read the others.
pub trait SpecializeArgs: Copy {
    /// Whether `self` and `other` agree in every argument that a module may
    /// only read.
    spec fn same_fixed(self, other: Self) -> bool;

    /// Whether `self` and `other` agree in every argument that a module may
    /// change.
    spec fn same_mutable(self, other: Self) -> bool;

    /// Puts back, from `before`, every argument that a module may only read,
    /// and keeps the others.
    fn restore_fixed(&mut self, before: &Self)
        ensures
            final(self).same_fixed(*before),
            final(self).same_mutable(*old(self)),
    ;
}

/// One revision of the host's ABI: its number, its table, the arguments of
/// its callbacks, and how a module is offered to a host of that revision.
pub trait ZygiskRaw: Sealed + Sized {
    /// The number that the host knows the revision by.
    const API_VERSION: c_long;

    /// The host's table in this revision.
    type ApiTable;

    /// The arguments of an app's specialization in this revision.
    type AppSpecializeArgs: SpecializeArgs;

    /// The arguments of the system server's specialization in this revision.
    type ServerSpecializeArgs: SpecializeArgs;

    /// The number of the revision.
    spec fn revision() -> int;

    /// The constant of the revision is its number.
    proof fn lemma_api_version()
        ensures
            Self::API_VERSION == Self::revision(),
    ;

    /// The address that `table` holds for the function that takes a module's
    /// callbacks.
    spec fn registration_slot(table: &Self::ApiTable) -> usize;

    /// What the host is given to call back into `module`: it names this
    /// revision and dispatches through `module`.
    fn abi_from_module<'a, D>(module: RawModule<'a, Self, D>) -> (abi: ModuleAbi<'a, Self, D>)
        ensures
            abi.api_version == Self::API_VERSION,
            abi.api_version == Self::revision(),
            abi.this == module,
    ;

    /// The address of the host's function that takes a module's callbacks.
    fn register_module_fn(table: ApiTableRef<'_, Self>) -> (function: usize)
        ensures
            function == Self::registration_slot(table.raw),
    ;
}

/// From one revision to the next the host's table only grows or keeps its
/// size, and a function that two revisions share keeps its place. Revision 2
/// adds two functions to the end of revision 1; revision 3 keeps the table of
/// revision 2; revision 4 puts the function that exempts a descriptor in the
/// place of the one that excluded hooks; revision 5 keeps the table of
/// revision 4.
pub proof fn lemma_tables_keep_their_places(words: Seq<usize>)
    ensures
        v1::TABLE_WORDS <= v2::TABLE_WORDS == v3::TABLE_WORDS == v4::TABLE_WORDS == v5::TABLE_WORDS,
        ({
            let t1 = v1::ApiTable::of_words(words);
            let t2 = v2::ApiTable::of_words(words);
            &&& t1.base == t2.base
            &&& t1.hook_jni_native_methods_fn == t2.hook_jni_native_methods_fn
            &&& t1.plt_hook_register_fn == t2.plt_hook_register_fn
            &&& t1.plt_hook_exclude_fn == t2.plt_hook_exclude_fn
            &&& t1.plt_hook_commit_fn == t2.plt_hook_commit_fn
            &&& t1.connect_companion_fn == t2.connect_companion_fn
            &&& t1.set_option_fn == t2.set_option_fn
        }),
        ({
            let t2 = v2::ApiTable::of_words(words);
            let t3 = v3::ApiTable::of_words(words);
            &&& t2.base == t3.base
            &&& t2.hook_jni_native_methods_fn == t3.hook_jni_native_methods_fn
            &&& t2.plt_hook_register_fn == t3.plt_hook_register_fn
            &&& t2.plt_hook_exclude_fn == t3.plt_hook_exclude_fn
            &&& t2.plt_hook_commit_fn == t3.plt_hook_commit_fn
            &&& t2.connect_companion_fn == t3.connect_companion_fn
            &&& t2.set_option_fn == t3.set_option_fn
            &&& t2.get_module_dir_fn == t3.get_module_dir_fn
            &&& t2.get_flags_fn == t3.get_flags_fn
        }),
        ({
            let t3 = v3::ApiTable::of_words(words);
            let t4 = v4::ApiTable::of_words(words);
            &&& t3.base == t4.base
            &&& t3.hook_jni_native_methods_fn == t4.hook_jni_native_methods_fn
            &&& t3.plt_hook_register_fn == t4.plt_hook_register_fn
            &&& t3.plt_hook_exclude_fn == t4.exempt_fd_fn
            &&& t3.plt_hook_commit_fn == t4.plt_hook_commit_fn
            &&& t3.connect_companion_fn == t4.connect_companion_fn
            &&& t3.set_option_fn == t4.set_option_fn
            &&& t3.get_module_dir_fn == t4.get_module_dir_fn
            &&& t3.get_flags_fn == t4.get_flags_fn
        }),
        ({
            let t4 = v4::ApiTable::of_words(words);
            let t5 = v5::ApiTable::of_words(words);
            &&& t4.base == t5.base
            &&& t4.hook_jni_native_methods_fn == t5.hook_jni_native_methods_fn
            &&& t4.plt_hook_register_fn == t5.plt_hook_register_fn
            &&& t4.exempt_fd_fn == t5.exempt_fd_fn
            &&& t4.plt_hook_commit_fn == t5.plt_hook_commit_fn
            &&& t4.connect_companion_fn == t5.connect_companion_fn
            &&& t4.set_option_fn == t5.set_option_fn
            &&& t4.get_module_dir_fn == t5.get_module_dir_fn
            &&& t4.get_flags_fn == t5.get_flags_fn
        }),
{
}

impl<'a, V: ZygiskRaw, D> ModuleAbi<'a, V, D> {
    /// The host's call before a process is specialized as an app. The
    /// module's hook for it runs once, with the environment handle of the
    /// load, with `args`, and with the operations of `host` over the table of
    /// the load, through which no call was made yet. The arguments that a
    /// module may change come out as the hook left them; those that it may
    /// only read come out as they went in, whatever the hook did.
    pub fn pre_app_specialize<H: HostAbi>(&self, host: &mut H, args: &mut V::AppSpecializeArgs) where
        D: ZygiskModule<H, Api = V>,
        ensures
            final(args).same_fixed(*old(args)),
            exists|api: ZygiskApi<'_, V, H>, seen: &mut V::AppSpecializeArgs|
                {
                    &&& api.table.raw == self.this.api_table.raw
                    &&& api.log@ == Seq::<HostCall>::empty()
                    &&& *api.host == *old(host)
                    &&& *final(api.host) == *final(host)
                    &&& *seen == *old(args)
                    &&& call_ensures(
                        <D as ZygiskModule<H>>::pre_app_specialize,
                        (&self.this.dispatch, api, self.this.jni_env, seen),
                        (),
                    )
                    &&& final(args).same_mutable(*final(seen))
                },
    {
        let before = *args;
        let api = ZygiskApi::new(ApiTableRef::from_raw(self.this.api_table.raw), host);
        self.this.dispatch.pre_app_specialize(api, self.this.jni_env, args);
        args.restore_fixed(&before);
    }

    /// The host's call after a process was specialized as an app. The
    /// module's hook for it runs once, with the environment handle of the
    /// load, with `args`, and with the operations of `host` over the table of
    /// the load, through which no call was made yet. What becomes of `host`
    /// is what the hook makes of it.
    pub fn post_app_specialize<H: HostAbi>(&self, host: &mut H, args: &V::AppSpecializeArgs) where
        D: ZygiskModule<H, Api = V>,
        ensures
            exists|api: ZygiskApi<'_, V, H>|
                {
                    &&& api.table.raw == self.this.api_table.raw
                    &&& api.log@ == Seq::<HostCall>::empty()
                    &&& *api.host == *old(host)
                    &&& *final(api.host) == *final(host)
                    &&& call_ensures(
                        <D as ZygiskModule<H>>::post_app_specialize,
                        (&self.this.dispatch, api, self.this.jni_env, args),
                        (),
                    )
                },
    {
        let api = ZygiskApi::new(ApiTableRef::from_raw(self.this.api_table.raw), host);
        self.this.dispatch.post_app_specialize(api, self.this.jni_env, args);
    }

    /// The host's call before a process is specialized as the system server.
    /// The module's hook for it runs once, with the environment handle of the
    /// load, with `args`, and with the operations of `host` over the table of
    /// the load, through which no call was made yet. The arguments that a
    /// module may change come out as the hook left them; those that it may
    /// only read come out as they went in, whatever the hook did.
    pub fn pre_server_specialize<H: HostAbi>(
        &self,
        host: &mut H,
        args: &mut V::ServerSpecializeArgs,
    ) where D: ZygiskModule<H, Api = V>,
        ensures
            final(args).same_fixed(*old(args)),
            exists|api: ZygiskApi<'_, V, H>, seen: &mut V::ServerSpecializeArgs|
                {
                    &&& api.table.raw == self.this.api_table.raw
                    &&& api.log@ == Seq::<HostCall>::empty()
                    &&& *api.host == *old(host)
                    &&& *final(api.host) == *final(host)
                    &&& *seen == *old(args)
                    &&& call_ensures(
                        <D as ZygiskModule<H>>::pre_server_specialize,
                        (&self.this.dispatch, api, self.this.jni_env, seen),
                        (),
                    )
                    &&& final(args).same_mutable(*final(seen))
                },
    {
        let before = *args;
        let api = ZygiskApi::new(ApiTableRef::from_raw(self.this.api_table.raw), host);
        self.this.dispatch.pre_server_specialize(api, self.this.jni_env, args);
        args.restore_fixed(&before);
    }

    /// The host's call after a process was specialized as the system server.
    /// The module's hook for it runs once, with the environment handle of the
    /// load, with `args`, and with the operations of `host` over the table of
    /// the load, through which no call was made yet. What becomes of `host`
    /// is what the hook makes of it.
    pub fn post_server_specialize<H: HostAbi>(
        &self,
        host: &mut H,
        args: &V::ServerSpecializeArgs,
    ) where D: ZygiskModule<H, Api = V>,
        ensures
            exists|api: ZygiskApi<'_, V, H>|
                {
                    &&& api.table.raw == self.this.api_table.raw
                    &&& api.log@ == Seq::<HostCall>::empty()
                    &&& *api.host == *old(host)
                    &&& *final(api.host) == *final(host)
                    &&& call_ensures(
                        <D as ZygiskModule<H>>::post_server_specialize,
                        (&self.this.dispatch, api, self.this.jni_env, args),
                        (),
                    )
                },
    {
        let api = ZygiskApi::new(ApiTableRef::from_raw(self.this.api_table.raw), host);
        self.this.dispatch.post_server_specialize(api, self.this.jni_env, args);
    }
}

} // verus!
