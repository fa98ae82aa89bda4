use zygisk_api::api::{V1, V5};
use zygisk_api::host::{HostAbi, JniEnv};
use zygisk_api::raw::{
    v1, v2, v3, v4, v5, ApiTableRef, BaseApi, Callbacks, ModuleAbi, RawModule, ZygiskRaw, MODULE_ABI_WORDS,
};
use zygisk_api::ZygiskModule;

const WORDS: [usize; 12] = [0x70, 0x71, 0x72, 0x73, 0x74, 0x75, 0x76, 0x77, 0x78, 0x79, 0x7a, 0x7b];

#[test]
fn table_sizes() {
    assert_eq!(v1::TABLE_WORDS, 8);
    assert_eq!(v2::TABLE_WORDS, 10);
    assert_eq!(v3::TABLE_WORDS, 10);
    assert_eq!(v4::TABLE_WORDS, 10);
    assert_eq!(v5::TABLE_WORDS, 10);
    assert_eq!(MODULE_ABI_WORDS, 6);
}

#[test]
fn table_of_revision_1_from_words() {
    let expected = v1::ApiTable {
        base: BaseApi { this: 0x70, register_module_fn: 0x71 },
        hook_jni_native_methods_fn: 0x72,
        plt_hook_register_fn: 0x73,
        plt_hook_exclude_fn: 0x74,
        plt_hook_commit_fn: 0x75,
        connect_companion_fn: 0x76,
        set_option_fn: 0x77,
    };
    assert_eq!(v1::ApiTable::from_words(&WORDS[..8]).as_ref(), Some(&expected));
    assert_eq!(v1::ApiTable::from_words(&WORDS).as_ref(), Some(&expected));
    assert_eq!(v1::ApiTable::from_words(&WORDS[..7]), None);
    assert_eq!(v1::ApiTable::from_words(&[]), None);
    assert_eq!(expected.to_words(), WORDS[..8].to_vec());
}

#[test]
fn tables_of_revisions_2_and_3_from_words() {
    let t2 = v2::ApiTable::from_words(&WORDS).unwrap();
    let t3 = v3::ApiTable::from_words(&WORDS[..10]).unwrap();
    assert_eq!(
        t2,
        v2::ApiTable {
            base: BaseApi { this: 0x70, register_module_fn: 0x71 },
            hook_jni_native_methods_fn: 0x72,
            plt_hook_register_fn: 0x73,
            plt_hook_exclude_fn: 0x74,
            plt_hook_commit_fn: 0x75,
            connect_companion_fn: 0x76,
            set_option_fn: 0x77,
            get_module_dir_fn: 0x78,
            get_flags_fn: 0x79,
        }
    );
    assert_eq!(t3.base, t2.base);
    assert_eq!(t3.plt_hook_exclude_fn, 0x74);
    assert_eq!(t3.get_module_dir_fn, 0x78);
    assert_eq!(t3.get_flags_fn, 0x79);
    assert_eq!(v2::ApiTable::from_words(&WORDS[..9]), None);
    assert_eq!(v3::ApiTable::from_words(&WORDS[..8]), None);
    assert_eq!(t2.to_words(), WORDS[..10].to_vec());
    assert_eq!(t3.to_words(), WORDS[..10].to_vec());
}

#[test]
fn tables_of_revisions_4_and_5_from_words() {
    let t4 = v4::ApiTable::from_words(&WORDS).unwrap();
    let t5 = v5::ApiTable::from_words(&WORDS[..10]).unwrap();
    assert_eq!(
        t5,
        v5::ApiTable {
            base: BaseApi { this: 0x70, register_module_fn: 0x71 },
            hook_jni_native_methods_fn: 0x72,
            plt_hook_register_fn: 0x73,
            exempt_fd_fn: 0x74,
            plt_hook_commit_fn: 0x75,
            connect_companion_fn: 0x76,
            set_option_fn: 0x77,
            get_module_dir_fn: 0x78,
            get_flags_fn: 0x79,
        }
    );
    assert_eq!(t4.exempt_fd_fn, 0x74);
    assert_eq!(t4.plt_hook_commit_fn, 0x75);
    assert_eq!(t4.get_flags_fn, 0x79);
    assert_eq!(v4::ApiTable::from_words(&WORDS[..9]), None);
    assert_eq!(v5::ApiTable::from_words(&WORDS[..1]), None);
    assert_eq!(t4.to_words(), WORDS[..10].to_vec());
    assert_eq!(t5.to_words(), WORDS[..10].to_vec());
}

#[test]
fn a_missing_function_is_a_zero_word() {
    let mut words = WORDS;
    words[7] = 0;
    words[9] = 0;
    let t = v5::ApiTable::from_words(&words).unwrap();
    assert_eq!(t.set_option_fn, 0);
    assert_eq!(t.get_flags_fn, 0);
    assert_eq!(t.get_module_dir_fn, 0x78);
    assert_eq!(v5::ApiTable::from_words(&t.to_words()).as_ref(), Some(&t));
}

struct Quiet1;

impl<H: HostAbi> ZygiskModule<H> for Quiet1 {
    type Api = V1;
}

struct Quiet5;

impl<H: HostAbi> ZygiskModule<H> for Quiet5 {
    type Api = V5;
}

#[test]
fn what_the_host_reads_of_a_module() {
    let callbacks = Callbacks {
        pre_app_specialize_fn: 0xa1,
        post_app_specialize_fn: 0xa2,
        pre_server_specialize_fn: 0xa3,
        post_server_specialize_fn: 0xa4,
    };
    let t1 = v1::ApiTable::from_words(&WORDS).unwrap();
    let a1: ModuleAbi<V1, Quiet1> = V1::abi_from_module(RawModule {
        dispatch: Quiet1,
        api_table: ApiTableRef::from_raw(&t1),
        jni_env: JniEnv { raw: 1 },
    });
    assert_eq!(a1.to_words(0xbeef, &callbacks), vec![1, 0xbeef, 0xa1, 0xa2, 0xa3, 0xa4]);
    let t5 = v5::ApiTable::from_words(&WORDS).unwrap();
    let a5: ModuleAbi<V5, Quiet5> = V5::abi_from_module(RawModule {
        dispatch: Quiet5,
        api_table: ApiTableRef::from_raw(&t5),
        jni_env: JniEnv { raw: 1 },
    });
    assert_eq!(a5.to_words(0xcafe, &callbacks), vec![5, 0xcafe, 0xa1, 0xa2, 0xa3, 0xa4]);
}
