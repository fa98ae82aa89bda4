//! Bindings to the Zygisk module ABI, revisions 1 to 5.
//!
//! A host process hands a loaded module a table of function pointers and
//! later calls the module back around the specialization of each forked
//! process. This crate decides which slot of which revision's table an
//! operation goes through, what is handed to the host, how the host's answer
//! becomes a checked value, and how far loading gets. The calls themselves are
//! made by an implementation of [`host::HostAbi`]; the crate proves that it
//! never calls through a missing function and never hands over a string that
//! the host cannot read.

use crate::api::{HostCall, ZygiskApi};
use crate::error::ZygiskError;
use crate::host::{HostAbi, HostRegistration, JniEnv};
use crate::raw::{ApiTableRef, ModuleAbi, ModuleAbiRef, RawModule, ZygiskRaw};
use vstd::prelude::*;

pub mod api;
pub mod error;
pub mod host;
pub(crate) mod impl_sealing;
pub mod raw;
pub mod utils;

verus! {

/// A module: what the host's callbacks are dispatched to, for a host that is
/// reached through `H`. Every callback has a body that does nothing, so a
/// module states only the ones it needs.
pub trait ZygiskModule<H: HostAbi>: Sized {
    /// The revision of the ABI that the module is built against.
    type Api: ZygiskRaw;

    /// Called once the host has taken the module's callbacks.
    fn on_load(&self, api: ZygiskApi<'_, Self::Api, H>, env: JniEnv) {
    }

    /// Called before the process is specialized as an app, while it still
    /// runs with the privileges it was forked with. The arguments of the
    /// specialization can be read and, where the host allows, changed.
    fn pre_app_specialize(
        &self,
        api: ZygiskApi<'_, Self::Api, H>,
        env: JniEnv,
        args: &mut <Self::Api as ZygiskRaw>::AppSpecializeArgs,
    ) {
    }

    /// Called after the process was specialized as an app, when it runs with
    /// the app's privileges.
    fn post_app_specialize(
        &self,
        api: ZygiskApi<'_, Self::Api, H>,
        env: JniEnv,
        args: &<Self::Api as ZygiskRaw>::AppSpecializeArgs,
    ) {
    }

    /// Called before the process is specialized as the system server.
    fn pre_server_specialize(
        &self,
        api: ZygiskApi<'_, Self::Api, H>,
        env: JniEnv,
        args: &mut <Self::Api as ZygiskRaw>::ServerSpecializeArgs,
    ) {
    }

    /// Called after the process was specialized as the system server.
    fn post_server_specialize(
        &self,
        api: ZygiskApi<'_, Self::Api, H>,
        env: JniEnv,
        args: &<Self::Api as ZygiskRaw>::ServerSpecializeArgs,
    ) {
    }
}

/// How far the loading of a module has got. The states are passed through in
/// the order they are listed in.
#[derive(Clone, Copy, Debug, PartialEq, Eq, Structural)]
pub enum LoadState {
    /// Nothing has been built yet.
    Uninitialized,
    /// The record that callbacks are dispatched through is built.
    Constructed,
    /// What the host is given to call the module back is built.
    AbiBuilt,
    /// The host was offered the module's callbacks and has answered.
    Registered,
    /// The host took the callbacks and the module's load hook has run.
    Loaded,
}

impl LoadState {
    /// The state that follows `self`; the last state follows itself.
    pub open spec fn successor(self) -> LoadState {
        match self {
            LoadState::Uninitialized => LoadState::Constructed,
            LoadState::Constructed => LoadState::AbiBuilt,
            LoadState::AbiBuilt => LoadState::Registered,
            LoadState::Registered => LoadState::Loaded,
            LoadState::Loaded => LoadState::Loaded,
        }
    }

    /// The state that follows `self`; the last state follows itself.
    pub fn next(self) -> (state: LoadState)
        ensures
            state == self.successor(),
    {
        match self {
            LoadState::Uninitialized => LoadState::Constructed,
            LoadState::Constructed => LoadState::AbiBuilt,
            LoadState::AbiBuilt => LoadState::Registered,
            LoadState::Registered => LoadState::Loaded,
            LoadState::Loaded => LoadState::Loaded,
        }
    }

    /// Where loading ends once the host has answered the offer of the
    /// module's callbacks: with the load hook run where it took them, and
    /// short of that where it did not.
    pub open spec fn registration_answer(accepted: bool) -> LoadState {
        if accepted {
            LoadState::Loaded
        } else {
            LoadState::Registered
        }
    }

    /// Where loading ends, given what offering the module's callbacks came
    /// to: short of the offer where the host's table has no function to take
    /// it, and else as the host's answer has it.
    pub open spec fn offer_answer(offer: Result<bool, ZygiskError>) -> LoadState {
        match offer {
            Err(_) => LoadState::AbiBuilt,
            Ok(accepted) => LoadState::registration_answer(accepted),
        }
    }

    /// Where loading ends, given what offering the module's callbacks came
    /// to. The load hook is owed exactly where this is [`LoadState::Loaded`].
    pub fn after_offer(offer: &Result<bool, ZygiskError>) -> (state: LoadState)
        ensures
            state == LoadState::offer_answer(*offer),
    {
        let built = LoadState::Uninitialized.next().next();
        match offer {
            Err(_) => built,
            Ok(false) => built.next(),
            Ok(true) => built.next().next(),
        }
    }
}

/// Loads `dispatch` into a host of revision `V` whose table `api_table`
/// borrows.
///
/// The record of the load is built and put into `slot`, which has to live as
/// long as the process, since the host keeps what it is offered. Then the
/// host is offered the module's callbacks, once, and where it takes them the
/// module's load hook runs, once, with the environment handle given and the
/// operations of `host` over the table given. Where the host does not take
/// them, or where its table has no function to offer them to, no hook runs
/// and the module is never called.
pub fn module_entry<'a, V: ZygiskRaw, D: ZygiskModule<H, Api = V>, H: HostRegistration<V, D>>(
    slot: &mut Option<ModuleAbi<'a, V, D>>,
    host: &mut H,
    dispatch: D,
    api_table: ApiTableRef<'a, V>,
    jni_env: JniEnv,
) -> (state: LoadState)
    ensures
        *final(slot) == Some(
            ModuleAbi::<'a, V, D> {
                api_version: V::API_VERSION,
                this: RawModule { dispatch, api_table, jni_env },
            },
        ),
        final(slot)->Some_0.api_version == V::revision(),
        V::registration_slot(api_table.raw) == 0 ==> state == LoadState::AbiBuilt && *final(host)
            == *old(host),
        V::registration_slot(api_table.raw) != 0 ==> exists|
            h: &mut H,
            table: ApiTableRef<'_, V>,
            abi: ModuleAbiRef<'_, V, D>,
            answer: bool,
        |
            {
                &&& *h == *old(host)
                &&& table.raw == api_table.raw
                &&& *abi.raw == final(slot)->Some_0
                &&& call_ensures(
                    <H as HostRegistration<V, D>>::register_module,
                    (h, V::registration_slot(api_table.raw), table, abi),
                    answer,
                )
                &&& state == LoadState::registration_answer(answer)
                &&& if answer {
                    exists|api: ZygiskApi<'_, V, H>|
                        {
                            &&& api.table.raw == api_table.raw
                            &&& api.log@ == Seq::<HostCall>::empty().push(
                                HostCall::RegisterModule {
                                    function: V::registration_slot(api_table.raw),
                                    api_version: V::API_VERSION,
                                    answer,
                                },
                            )
                            &&& *api.host == *final(h)
                            &&& *final(api.host) == *final(host)
                            &&& call_ensures(
                                <D as ZygiskModule<H>>::on_load,
                                (&final(slot)->Some_0.this.dispatch, api, jni_env),
                                (),
                            )
                        }
                } else {
                    *final(h) == *final(host)
                }
            },
{
    proof {
        V::lemma_api_version();
    }
    *slot = Some(V::abi_from_module(RawModule { dispatch, api_table, jni_env }));
    let abi = slot.as_ref().unwrap();
    let mut api = ZygiskApi::new(ApiTableRef::from_raw(abi.this.api_table.raw), host);
    let offer = api.register_module(ModuleAbiRef::from_raw(abi));
    let state = LoadState::after_offer(&offer);
    match state {
        LoadState::Loaded => {
            abi.this.dispatch.on_load(api, abi.this.jni_env);
        },
        _ => {},
    }
    state
}

} // verus!
