use super::{ApiTableRef, BaseApi, ModuleAbi, RawModule, SpecializeArgs, ZygiskRaw};
use crate::api::V3;
use jni::sys::{jboolean, jint};
use libc::c_long;
use vstd::prelude::*;

verus! {

/// The arguments of an app's specialization. References to Java objects are
/// kept as the addresses the host gave. A module may change `uid`, `gid` and
/// `gids`; the host passes the arguments from `fds_to_ignore` on only where
/// the platform has them.
#[derive(Clone, Copy, Debug, PartialEq, Eq)]
pub struct AppSpecializeArgs {
    pub uid: jint,
    pub gid: jint,
    pub gids: usize,
    pub runtime_flags: jint,
    pub rlimits: usize,
    pub mount_external: jint,
    pub se_info: usize,
    pub nice_name: usize,
    pub instruction_set: usize,
    pub app_data_dir: usize,
    pub fds_to_ignore: Option<usize>,
    pub is_child_zygote: Option<jint>,
    pub is_top_app: Option<jint>,
    pub pkg_data_info_list: Option<usize>,
    pub whitelisted_data_info_list: Option<usize>,
    pub mount_data_dirs: Option<jboolean>,
    pub mount_storage_dirs: Option<jboolean>,
}

impl SpecializeArgs for AppSpecializeArgs {
    open spec fn same_fixed(self, other: Self) -> bool {
        self == (AppSpecializeArgs { uid: self.uid, gid: self.gid, gids: self.gids, ..other })
    }

    open spec fn same_mutable(self, other: Self) -> bool {
        self.uid == other.uid && self.gid == other.gid && self.gids == other.gids
    }

    fn restore_fixed(&mut self, before: &Self) {
        *self = AppSpecializeArgs { uid: self.uid, gid: self.gid, gids: self.gids, ..*before };
    }
}

/// The host's table in revision 3, each function as its address, 0 where the
/// host left it out. The functions are those of revision 2; the
/// arguments of an app's specialization gain `rlimits` and `fds_to_ignore`.
#[derive(Debug, PartialEq, Eq)]
pub struct ApiTable {
    pub base: BaseApi,
    pub hook_jni_native_methods_fn: usize,
    pub plt_hook_register_fn: usize,
    pub plt_hook_exclude_fn: usize,
    pub plt_hook_commit_fn: usize,
    pub connect_companion_fn: usize,
    pub set_option_fn: usize,
    pub get_module_dir_fn: usize,
    pub get_flags_fn: usize,
}

/// The number of pointer-sized words that the host's table takes up in
/// revision 3.
pub const TABLE_WORDS: usize = 10;

impl ApiTable {
    /// The table that the host laid out as `words`: its handle of the session,
    /// then its functions, a word each, in the order of the fields.
    pub open spec fn of_words(words: Seq<usize>) -> ApiTable {
        ApiTable {
            base: BaseApi { this: words[0], register_module_fn: words[1] },
            hook_jni_native_methods_fn: words[2],
            plt_hook_register_fn: words[3],
            plt_hook_exclude_fn: words[4],
            plt_hook_commit_fn: words[5],
            connect_companion_fn: words[6],
            set_option_fn: words[7],
            get_module_dir_fn: words[8],
            get_flags_fn: words[9],
        }
    }

    /// Reads the table from the words the host laid it out as. Words beyond
    /// the table, which a later revision may have added, are not looked at;
    /// fewer words than the table has are no table.
    pub fn from_words(words: &[usize]) -> (table: Option<ApiTable>)
        ensures
            table is Some <==> words@.len() >= TABLE_WORDS,
            table matches Some(t) ==> t == ApiTable::of_words(words@),
    {
        if words.len() < TABLE_WORDS {
            None
        } else {
            Some(
                ApiTable {
                    base: BaseApi { this: words[0], register_module_fn: words[1] },
                    hook_jni_native_methods_fn: words[2],
                    plt_hook_register_fn: words[3],
                    plt_hook_exclude_fn: words[4],
                    plt_hook_commit_fn: words[5],
                    connect_companion_fn: words[6],
                    set_option_fn: words[7],
                    get_module_dir_fn: words[8],
                    get_flags_fn: words[9],
                },
            )
        }
    }

    /// The words that a host lays the table out as.
    pub fn to_words(&self) -> (words: Vec<usize>)
        ensures
            words@.len() == TABLE_WORDS,
            ApiTable::of_words(words@) == *self,
    {
        let mut words: Vec<usize> = Vec::with_capacity(TABLE_WORDS);
        words.push(self.base.this);
        words.push(self.base.register_module_fn);
        words.push(self.hook_jni_native_methods_fn);
        words.push(self.plt_hook_register_fn);
        words.push(self.plt_hook_exclude_fn);
        words.push(self.plt_hook_commit_fn);
        words.push(self.connect_companion_fn);
        words.push(self.set_option_fn);
        words.push(self.get_module_dir_fn);
        words.push(self.get_flags_fn);
        words
    }
}

impl ZygiskRaw for V3 {
    const API_VERSION: c_long = 3;

    type ApiTable = ApiTable;

    type AppSpecializeArgs = AppSpecializeArgs;

    type ServerSpecializeArgs = super::v1::ServerSpecializeArgs;

    open spec fn revision() -> int {
        3
    }

    proof fn lemma_api_version() {
    }

    open spec fn registration_slot(table: &ApiTable) -> usize {
        table.base.register_module_fn
    }

    fn abi_from_module<'a, D>(module: RawModule<'a, V3, D>) -> (abi: ModuleAbi<'a, V3, D>) {
        ModuleAbi { api_version: Self::API_VERSION, this: module }
    }

    fn register_module_fn(table: ApiTableRef<'_, V3>) -> (function: usize) {
        table.raw.base.register_module_fn
    }
}

} // verus!
