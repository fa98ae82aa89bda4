use libc::{c_int, c_long, dev_t, ino_t};
use std::cell::{Cell, RefCell};
use zygisk_api::api::{ZygiskApi, V1, V2, V3, V4, V5};
use zygisk_api::error::ZygiskError;
use zygisk_api::host::{HostAbi, HostRegistration, JniEnv, NativeMethod};
use zygisk_api::raw::v1::ZygiskOption;
use zygisk_api::raw::v2::StateFlags;
use zygisk_api::raw::{
    v1, v2, v3, v4, v5, ApiTableRef, BaseApi, ModuleAbi, ModuleAbiRef, RawModule, SpecializeArgs, ZygiskRaw,
};
use zygisk_api::{module_entry, LoadState, ZygiskModule};

const THIS: usize = 0x7000;
const ENV: JniEnv = JniEnv { raw: 0x9000 };

/// A host that answers from what it was set up with and notes what it saw.
#[derive(Clone, Debug, PartialEq, Eq)]
struct Host {
    accept: bool,
    module_dir: c_int,
    flags: u32,
    offered_version: Option<c_long>,
    offered_env: Option<JniEnv>,
    calls: Vec<&'static str>,
    options: Vec<ZygiskOption>,
}

impl Host {
    fn new(accept: bool) -> Host {
        Host {
            accept,
            module_dir: 33,
            flags: 2,
            offered_version: None,
            offered_env: None,
            calls: Vec::new(),
            options: Vec::new(),
        }
    }
}

impl HostAbi for Host {
    fn hook_jni_native_methods(
        &mut self,
        _function: usize,
        _env: JniEnv,
        _class_name: &[u8],
        methods: &[NativeMethod],
        _count: c_int,
    ) -> Vec<usize> {
        self.calls.push("hook_jni_native_methods");
        vec![0; methods.len()]
    }

    fn plt_hook_register(&mut self, _function: usize, _regex: &[u8], _symbol: &[u8], _replacement: usize) -> usize {
        self.calls.push("plt_hook_register");
        0
    }

    fn plt_hook_register_inode(
        &mut self,
        _function: usize,
        _device: dev_t,
        _inode: ino_t,
        _symbol: &[u8],
        _replacement: usize,
    ) -> usize {
        self.calls.push("plt_hook_register_inode");
        0
    }

    fn plt_hook_exclude(&mut self, _function: usize, _regex: &[u8], _symbol: &[u8]) {
        self.calls.push("plt_hook_exclude");
    }

    fn plt_hook_commit(&mut self, _function: usize) -> bool {
        self.calls.push("plt_hook_commit");
        true
    }

    fn connect_companion(&mut self, _function: usize, _this: usize) -> c_int {
        self.calls.push("connect_companion");
        -1
    }

    fn close_companion(&mut self, _fd: c_int) {
        self.calls.push("close_companion");
    }

    fn set_option(&mut self, _function: usize, this: usize, option: ZygiskOption) {
        assert_eq!(this, THIS);
        self.calls.push("set_option");
        self.options.push(option);
    }

    fn get_module_dir(&mut self, _function: usize, this: usize) -> c_int {
        assert_eq!(this, THIS);
        self.calls.push("get_module_dir");
        self.module_dir
    }

    fn get_flags(&mut self, _function: usize, this: usize) -> u32 {
        assert_eq!(this, THIS);
        self.calls.push("get_flags");
        self.flags
    }
}

impl<V: ZygiskRaw, D> HostRegistration<V, D> for Host {
    fn register_module(
        &mut self,
        function: usize,
        _table: ApiTableRef<'_, V>,
        abi: ModuleAbiRef<'_, V, D>,
    ) -> bool {
        assert_ne!(function, 0);
        self.calls.push("register_module");
        self.offered_version = Some(abi.raw.api_version);
        self.offered_env = Some(abi.raw.this.jni_env);
        self.accept
    }
}

fn table1(register: usize) -> v1::ApiTable {
    v1::ApiTable {
        base: BaseApi { this: THIS, register_module_fn: register },
        hook_jni_native_methods_fn: 1,
        plt_hook_register_fn: 2,
        plt_hook_exclude_fn: 3,
        plt_hook_commit_fn: 4,
        connect_companion_fn: 5,
        set_option_fn: 6,
    }
}

fn table2(register: usize) -> v2::ApiTable {
    v2::ApiTable {
        base: BaseApi { this: THIS, register_module_fn: register },
        hook_jni_native_methods_fn: 1,
        plt_hook_register_fn: 2,
        plt_hook_exclude_fn: 3,
        plt_hook_commit_fn: 4,
        connect_companion_fn: 5,
        set_option_fn: 6,
        get_module_dir_fn: 7,
        get_flags_fn: 8,
    }
}

fn table3(register: usize) -> v3::ApiTable {
    v3::ApiTable {
        base: BaseApi { this: THIS, register_module_fn: register },
        hook_jni_native_methods_fn: 1,
        plt_hook_register_fn: 2,
        plt_hook_exclude_fn: 3,
        plt_hook_commit_fn: 4,
        connect_companion_fn: 5,
        set_option_fn: 6,
        get_module_dir_fn: 7,
        get_flags_fn: 8,
    }
}

fn table4(register: usize) -> v4::ApiTable {
    v4::ApiTable {
        base: BaseApi { this: THIS, register_module_fn: register },
        hook_jni_native_methods_fn: 1,
        plt_hook_register_fn: 2,
        exempt_fd_fn: 3,
        plt_hook_commit_fn: 4,
        connect_companion_fn: 5,
        set_option_fn: 6,
        get_module_dir_fn: 7,
        get_flags_fn: 8,
    }
}

fn table5(register: usize) -> v5::ApiTable {
    v5::ApiTable {
        base: BaseApi { this: THIS, register_module_fn: register },
        hook_jni_native_methods_fn: 1,
        plt_hook_register_fn: 2,
        exempt_fd_fn: 3,
        plt_hook_commit_fn: 4,
        connect_companion_fn: 5,
        set_option_fn: 6,
        get_module_dir_fn: 7,
        get_flags_fn: 8,
    }
}

fn app_args1() -> v1::AppSpecializeArgs {
    v1::AppSpecializeArgs {
        uid: 10123,
        gid: 10123,
        gids: 0x5000,
        runtime_flags: 0x40,
        mount_external: 1,
        se_info: 0x5001,
        nice_name: 0x5002,
        instruction_set: 0x5003,
        app_data_dir: 0x5004,
        is_child_zygote: Some(0),
        is_top_app: None,
        pkg_data_info_list: None,
        whitelisted_data_info_list: Some(0x5005),
        mount_data_dirs: Some(1),
        mount_storage_dirs: None,
    }
}

fn app_args5() -> v5::AppSpecializeArgs {
    v5::AppSpecializeArgs {
        uid: 10123,
        gid: 10123,
        gids: 0x5000,
        runtime_flags: 0x40,
        rlimits: 0x5006,
        mount_external: 1,
        se_info: 0x5001,
        nice_name: 0x5002,
        instruction_set: 0x5003,
        app_data_dir: 0x5004,
        fds_to_ignore: Some(0x5007),
        is_child_zygote: Some(0),
        is_top_app: None,
        pkg_data_info_list: None,
        whitelisted_data_info_list: Some(0x5005),
        mount_data_dirs: Some(1),
        mount_storage_dirs: None,
        mount_sysprop_overrides: Some(0),
    }
}

fn server_args() -> v1::ServerSpecializeArgs {
    v1::ServerSpecializeArgs {
        uid: 1000,
        gid: 1000,
        gids: 0x6000,
        runtime_flags: 0,
        permitted_capabilities: 0x1234_5678_9abc,
        effective_capabilities: -1,
    }
}

/// A module that states the load hook only.
#[derive(Default)]
struct OnLoadOnly {
    loaded: Cell<bool>,
    env: Cell<Option<JniEnv>>,
    module_dir: Cell<Option<Result<c_int, ZygiskError>>>,
    flags: Cell<Option<Result<StateFlags, ZygiskError>>>,
}

impl<H: HostAbi> ZygiskModule<H> for OnLoadOnly {
    type Api = V5;

    fn on_load(&self, mut api: ZygiskApi<'_, V5, H>, env: JniEnv) {
        self.loaded.set(true);
        self.env.set(Some(env));
        self.module_dir.set(Some(api.get_module_dir()));
        self.flags.set(Some(api.get_flags()));
    }
}

#[test]
fn loading_a_version_5_module_with_the_load_hook_only() {
    let table = table5(0x100);
    let mut slot: Option<ModuleAbi<V5, OnLoadOnly>> = None;
    let mut host = Host::new(true);
    host.module_dir = 42;
    host.flags = 3;
    let state = module_entry(&mut slot, &mut host, OnLoadOnly::default(), ApiTableRef::from_raw(&table), ENV);
    assert_eq!(state, LoadState::Loaded);
    let abi = slot.as_ref().unwrap();
    assert_eq!(abi.api_version, 5);
    assert_eq!(abi.api_version, <V5 as ZygiskRaw>::API_VERSION);
    assert_eq!(*abi.this.api_table.raw, table5(0x100));
    assert_eq!(abi.this.jni_env, ENV);
    assert!(abi.this.dispatch.loaded.get());
    assert_eq!(abi.this.dispatch.env.get(), Some(ENV));
    assert_eq!(abi.this.dispatch.module_dir.get(), Some(Ok(42)));
    assert_eq!(abi.this.dispatch.flags.get(), Some(Ok(StateFlags::all())));
    assert_eq!(host.offered_version, Some(5));
    assert_eq!(host.offered_env, Some(ENV));
    assert_eq!(host.calls, vec!["register_module", "get_module_dir", "get_flags"]);

    // The hooks that the module does not state do nothing.
    let mut app = app_args5();
    abi.pre_app_specialize(&mut host, &mut app);
    assert_eq!(app, app_args5());
    abi.post_app_specialize(&mut host, &app);
    let mut server = server_args();
    abi.pre_server_specialize(&mut host, &mut server);
    assert_eq!(server, server_args());
    abi.post_server_specialize(&mut host, &server);
    assert_eq!(host.calls, vec!["register_module", "get_module_dir", "get_flags"]);
}

#[test]
fn a_refused_module_is_never_loaded() {
    let table = table5(0x100);
    let mut slot: Option<ModuleAbi<V5, OnLoadOnly>> = None;
    let mut host = Host::new(false);
    let state = module_entry(&mut slot, &mut host, OnLoadOnly::default(), ApiTableRef::from_raw(&table), ENV);
    assert_eq!(state, LoadState::Registered);
    let abi = slot.as_ref().unwrap();
    assert_eq!(abi.api_version, 5);
    assert!(!abi.this.dispatch.loaded.get());
    assert_eq!(host.calls, vec!["register_module"]);
}

#[test]
fn a_table_without_registration_leaves_the_host_alone() {
    let table = table5(0);
    let mut slot: Option<ModuleAbi<V5, OnLoadOnly>> = None;
    let mut host = Host::new(true);
    let before = host.clone();
    let state = module_entry(&mut slot, &mut host, OnLoadOnly::default(), ApiTableRef::from_raw(&table), ENV);
    assert_eq!(state, LoadState::AbiBuilt);
    assert_eq!(host, before);
    let abi = slot.as_ref().unwrap();
    assert_eq!(abi.api_version, 5);
    assert!(!abi.this.dispatch.loaded.get());
}

#[test]
fn load_states_follow_each_other() {
    assert_eq!(LoadState::Uninitialized.next(), LoadState::Constructed);
    assert_eq!(LoadState::Constructed.next(), LoadState::AbiBuilt);
    assert_eq!(LoadState::AbiBuilt.next(), LoadState::Registered);
    assert_eq!(LoadState::Registered.next(), LoadState::Loaded);
    assert_eq!(LoadState::Loaded.next(), LoadState::Loaded);
}

struct Quiet1;

impl<H: HostAbi> ZygiskModule<H> for Quiet1 {
    type Api = V1;
}

struct Quiet2;

impl<H: HostAbi> ZygiskModule<H> for Quiet2 {
    type Api = V2;
}

struct Quiet3;

impl<H: HostAbi> ZygiskModule<H> for Quiet3 {
    type Api = V3;
}

struct Quiet4;

impl<H: HostAbi> ZygiskModule<H> for Quiet4 {
    type Api = V4;
}

struct Quiet5;

impl<H: HostAbi> ZygiskModule<H> for Quiet5 {
    type Api = V5;
}

#[test]
fn api_version_constants() {
    assert_eq!(<V1 as ZygiskRaw>::API_VERSION, 1);
    assert_eq!(<V2 as ZygiskRaw>::API_VERSION, 2);
    assert_eq!(<V3 as ZygiskRaw>::API_VERSION, 3);
    assert_eq!(<V4 as ZygiskRaw>::API_VERSION, 4);
    assert_eq!(<V5 as ZygiskRaw>::API_VERSION, 5);
}

#[test]
fn abi_from_module_names_its_revision() {
    let (t1, t2, t3, t4, t5) = (table1(9), table2(9), table3(9), table4(9), table5(9));
    let a1 = V1::abi_from_module(RawModule { dispatch: Quiet1, api_table: ApiTableRef::from_raw(&t1), jni_env: ENV });
    let a2 = V2::abi_from_module(RawModule { dispatch: Quiet2, api_table: ApiTableRef::from_raw(&t2), jni_env: ENV });
    let a3 = V3::abi_from_module(RawModule { dispatch: Quiet3, api_table: ApiTableRef::from_raw(&t3), jni_env: ENV });
    let a4 = V4::abi_from_module(RawModule { dispatch: Quiet4, api_table: ApiTableRef::from_raw(&t4), jni_env: ENV });
    let a5 = V5::abi_from_module(RawModule { dispatch: Quiet5, api_table: ApiTableRef::from_raw(&t5), jni_env: ENV });
    assert_eq!(a1.api_version, 1);
    assert_eq!(a2.api_version, 2);
    assert_eq!(a3.api_version, 3);
    assert_eq!(a4.api_version, 4);
    assert_eq!(a5.api_version, 5);
    assert_eq!(*a1.this.api_table.raw, table1(9));
    assert_eq!(*a2.this.api_table.raw, table2(9));
    assert_eq!(*a3.this.api_table.raw, table3(9));
    assert_eq!(*a4.this.api_table.raw, table4(9));
    assert_eq!(*a5.this.api_table.raw, table5(9));
    assert_eq!(a3.this.jni_env, ENV);
}

#[test]
fn register_module_fn_reads_the_base_of_the_table() {
    let t1 = table1(0x11);
    let t2 = table2(0x22);
    let t3 = table3(0x33);
    let t4 = table4(0x44);
    let t5 = table5(0);
    assert_eq!(V1::register_module_fn(ApiTableRef::from_raw(&t1)), 0x11);
    assert_eq!(V2::register_module_fn(ApiTableRef::from_raw(&t2)), 0x22);
    assert_eq!(V3::register_module_fn(ApiTableRef::from_raw(&t3)), 0x33);
    assert_eq!(V4::register_module_fn(ApiTableRef::from_raw(&t4)), 0x44);
    assert_eq!(V5::register_module_fn(ApiTableRef::from_raw(&t5)), 0);
}

#[test]
fn every_revision_loads() {
    let mut host = Host::new(true);
    let (t1, t2, t3, t4) = (table1(1), table2(1), table3(1), table4(1));
    let mut s1: Option<ModuleAbi<V1, Quiet1>> = None;
    let mut s2: Option<ModuleAbi<V2, Quiet2>> = None;
    let mut s3: Option<ModuleAbi<V3, Quiet3>> = None;
    let mut s4: Option<ModuleAbi<V4, Quiet4>> = None;
    assert_eq!(module_entry(&mut s1, &mut host, Quiet1, ApiTableRef::from_raw(&t1), ENV), LoadState::Loaded);
    assert_eq!(host.offered_version, Some(1));
    assert_eq!(module_entry(&mut s2, &mut host, Quiet2, ApiTableRef::from_raw(&t2), ENV), LoadState::Loaded);
    assert_eq!(host.offered_version, Some(2));
    assert_eq!(module_entry(&mut s3, &mut host, Quiet3, ApiTableRef::from_raw(&t3), ENV), LoadState::Loaded);
    assert_eq!(host.offered_version, Some(3));
    assert_eq!(module_entry(&mut s4, &mut host, Quiet4, ApiTableRef::from_raw(&t4), ENV), LoadState::Loaded);
    assert_eq!(host.offered_version, Some(4));
    assert_eq!(s1.unwrap().api_version, 1);
    assert_eq!(s2.unwrap().api_version, 2);
    assert_eq!(s3.unwrap().api_version, 3);
    assert_eq!(s4.unwrap().api_version, 4);
}

/// A module that changes whatever it is shown and notes the order of calls.
struct Meddler {
    seen: RefCell<Vec<&'static str>>,
}

impl<H: HostAbi> ZygiskModule<H> for Meddler {
    type Api = V1;

    fn on_load(&self, mut api: ZygiskApi<'_, V1, H>, _env: JniEnv) {
        self.seen.borrow_mut().push("on_load");
        api.set_option(ZygiskOption::ForceDenylistUnmount);
    }

    fn pre_app_specialize(
        &self,
        mut api: ZygiskApi<'_, V1, H>,
        env: JniEnv,
        args: &mut v1::AppSpecializeArgs,
    ) {
        assert_eq!(env, ENV);
        self.seen.borrow_mut().push("pre_app_specialize");
        api.set_option(ZygiskOption::DlCloseModuleLibrary);
        args.uid = 0;
        args.gid = 1;
        args.gids = 0xabcd;
        args.runtime_flags = 99;
        args.mount_external = 98;
        args.se_info = 97;
        args.nice_name = 96;
        args.instruction_set = 95;
        args.app_data_dir = 94;
        args.is_child_zygote = None;
        args.is_top_app = Some(1);
        args.pkg_data_info_list = Some(93);
        args.whitelisted_data_info_list = None;
        args.mount_data_dirs = None;
        args.mount_storage_dirs = Some(0);
    }

    fn post_app_specialize(
        &self,
        _api: ZygiskApi<'_, V1, H>,
        _env: JniEnv,
        args: &v1::AppSpecializeArgs,
    ) {
        assert_eq!(args.uid, 0);
        self.seen.borrow_mut().push("post_app_specialize");
    }

    fn pre_server_specialize(
        &self,
        _api: ZygiskApi<'_, V1, H>,
        _env: JniEnv,
        args: &mut v1::ServerSpecializeArgs,
    ) {
        self.seen.borrow_mut().push("pre_server_specialize");
        args.uid = 2;
        args.gid = 3;
        args.gids = 4;
        args.runtime_flags = 5;
        args.permitted_capabilities = 6;
        args.effective_capabilities = 7;
    }

    fn post_server_specialize(
        &self,
        _api: ZygiskApi<'_, V1, H>,
        _env: JniEnv,
        args: &v1::ServerSpecializeArgs,
    ) {
        assert_eq!(args.gid, 3);
        self.seen.borrow_mut().push("post_server_specialize");
    }
}

#[test]
fn callbacks_reach_the_module_and_keep_what_it_may_only_read() {
    let table = table1(0x100);
    let mut slot: Option<ModuleAbi<V1, Meddler>> = None;
    let mut host = Host::new(true);
    let module = Meddler { seen: RefCell::new(Vec::new()) };
    assert_eq!(
        module_entry(&mut slot, &mut host, module, ApiTableRef::from_raw(&table), ENV),
        LoadState::Loaded
    );
    let abi = slot.as_ref().unwrap();

    let mut app = app_args1();
    abi.pre_app_specialize(&mut host, &mut app);
    let mut expected = app_args1();
    expected.uid = 0;
    expected.gid = 1;
    expected.gids = 0xabcd;
    assert_eq!(app, expected);
    abi.post_app_specialize(&mut host, &app);

    let mut server = server_args();
    abi.pre_server_specialize(&mut host, &mut server);
    let mut expected = server_args();
    expected.uid = 2;
    expected.gid = 3;
    expected.gids = 4;
    assert_eq!(server, expected);
    abi.post_server_specialize(&mut host, &server);

    assert_eq!(
        *abi.this.dispatch.seen.borrow(),
        vec![
            "on_load",
            "pre_app_specialize",
            "post_app_specialize",
            "pre_server_specialize",
            "post_server_specialize"
        ]
    );
    assert_eq!(
        host.options,
        vec![ZygiskOption::ForceDenylistUnmount, ZygiskOption::DlCloseModuleLibrary]
    );
}

#[test]
fn restore_fixed_keeps_uid_gid_and_gids() {
    let before = app_args5();
    let mut edited = app_args5();
    edited.uid = 1;
    edited.gid = 2;
    edited.gids = 3;
    edited.rlimits = 4;
    edited.fds_to_ignore = None;
    edited.mount_sysprop_overrides = None;
    edited.nice_name = 5;
    edited.restore_fixed(&before);
    let mut expected = app_args5();
    expected.uid = 1;
    expected.gid = 2;
    expected.gids = 3;
    assert_eq!(edited, expected);

    let before = server_args();
    let mut edited = server_args();
    edited.uid = 7;
    edited.permitted_capabilities = 0;
    edited.effective_capabilities = 0;
    edited.restore_fixed(&before);
    let mut expected = server_args();
    expected.uid = 7;
    assert_eq!(edited, expected);
}

#[test]
fn register_module_hands_on_the_hosts_answer() {
    let table = table5(0x100);
    let abi = V5::abi_from_module(RawModule { dispatch: Quiet5, api_table: ApiTableRef::from_raw(&table), jni_env: ENV });
    for accept in [true, false] {
        let mut host = Host::new(accept);
        let r = ZygiskApi::<V5, Host>::new(ApiTableRef::from_raw(&table), &mut host)
            .register_module(ModuleAbiRef::from_raw(&abi));
        assert_eq!(r, Ok(accept));
        assert_eq!(host.offered_version, Some(5));
        assert_eq!(host.calls, vec!["register_module"]);
    }
}

#[test]
fn register_module_without_a_function_is_unsupported() {
    let table = table1(0);
    let abi = V1::abi_from_module(RawModule { dispatch: Quiet1, api_table: ApiTableRef::from_raw(&table), jni_env: ENV });
    let mut host = Host::new(true);
    let before = host.clone();
    let r = ZygiskApi::<V1, Host>::new(ApiTableRef::from_raw(&table), &mut host)
        .register_module(ModuleAbiRef::from_raw(&abi));
    assert_eq!(r, Err(ZygiskError::Unsupported));
    assert_eq!(host, before);
}

#[test]
fn the_end_of_a_load_follows_the_offer() {
    assert_eq!(LoadState::after_offer(&Err(ZygiskError::Unsupported)), LoadState::AbiBuilt);
    assert_eq!(LoadState::after_offer(&Ok(false)), LoadState::Registered);
    assert_eq!(LoadState::after_offer(&Ok(true)), LoadState::Loaded);
}
