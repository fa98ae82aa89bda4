use super::{ApiTableRef, BaseApi, ModuleAbi, RawModule, ZygiskRaw};
use crate::api::V2;
use libc::c_long;
use vstd::prelude::*;

verus! {

/// The bit that stands for "the process was granted root".
pub const PROCESS_GRANTED_ROOT: u32 = 1;

/// The bit that stands for "the process is on the deny list".
pub const PROCESS_ON_DENYLIST: u32 = 2;

/// The bits of a process state that this binding knows.
pub const KNOWN_STATE_BITS: u32 = 3;

/// Whether every bit set in `bits` is a known one.
pub open spec fn recognized(bits: u32) -> bool {
    bits & !KNOWN_STATE_BITS == 0
}

/// The known bits are the two flags, and a bit pattern holds known bits only
/// exactly where it is made of these two, which is where it is at most 3.
pub proof fn lemma_recognized(bits: u32)
    ensures
        KNOWN_STATE_BITS == PROCESS_GRANTED_ROOT | PROCESS_ON_DENYLIST,
        recognized(bits) <==> bits | KNOWN_STATE_BITS == KNOWN_STATE_BITS,
        recognized(bits) <==> bits <= KNOWN_STATE_BITS,
{
    assert(3u32 == 1u32 | 2u32) by (bit_vector);
    assert((bits & !3u32 == 0) <==> (bits | 3u32 == 3u32)) by (bit_vector);
    assert((bits & !3u32 == 0) <==> bits <= 3u32) by (bit_vector);
}

/// What the host has observed of the process: a set of flags, kept as a bit
/// pattern in which only known bits are set.
#[derive(Clone, Copy, Debug, PartialEq, Eq, Structural)]
pub struct StateFlags {
    bits: u32,
}

impl View for StateFlags {
    type V = u32;

    closed spec fn view(&self) -> u32 {
        self.bits
    }
}

impl StateFlags {
    #[verifier::type_invariant]
    spec fn well_formed(self) -> bool {
        recognized(self.bits)
    }

    /// The flag of a process that was granted root.
    pub fn process_granted_root() -> (flags: StateFlags)
        ensures
            flags@ == PROCESS_GRANTED_ROOT,
    {
        assert(recognized(1)) by (bit_vector);
        StateFlags { bits: PROCESS_GRANTED_ROOT }
    }

    /// The flag of a process that is on the deny list.
    pub fn process_on_denylist() -> (flags: StateFlags)
        ensures
            flags@ == PROCESS_ON_DENYLIST,
    {
        assert(recognized(2)) by (bit_vector);
        StateFlags { bits: PROCESS_ON_DENYLIST }
    }

    /// No flag.
    pub fn empty() -> (flags: StateFlags)
        ensures
            flags@ == 0,
    {
        assert(recognized(0)) by (bit_vector);
        StateFlags { bits: 0 }
    }

    /// Every known flag.
    pub fn all() -> (flags: StateFlags)
        ensures
            flags@ == KNOWN_STATE_BITS,
    {
        assert(recognized(3)) by (bit_vector);
        StateFlags { bits: 3 }
    }

    /// The flags as a bit pattern.
    pub fn bits(&self) -> (bits: u32)
        ensures
            bits == self@,
            recognized(bits),
    {
        proof {
            use_type_invariant(self);
        }
        self.bits
    }

    /// The flags that `bits` stands for, unless a bit is set in it that is
    /// not known.
    pub fn from_bits(bits: u32) -> (flags: Option<StateFlags>)
        ensures
            flags is Some <==> recognized(bits),
            flags matches Some(f) ==> f@ == bits,
    {
        if bits & !KNOWN_STATE_BITS == 0 {
            Some(StateFlags { bits })
        } else {
            None
        }
    }

    /// The known flags among the bits set in `bits`.
    pub fn from_bits_truncate(bits: u32) -> (flags: StateFlags)
        ensures
            flags@ == bits & KNOWN_STATE_BITS,
    {
        assert(recognized(bits & 3)) by (bit_vector);
        StateFlags { bits: bits & KNOWN_STATE_BITS }
    }

    /// Whether no flag is set.
    pub fn is_empty(&self) -> (empty: bool)
        ensures
            empty <==> self@ == 0,
    {
        self.bits == 0
    }

    /// Whether every flag of `other` is set in `self`.
    pub fn contains(&self, other: StateFlags) -> (holds: bool)
        ensures
            holds <==> self@ & other@ == other@,
    {
        self.bits & other.bits == other.bits
    }

    /// The flags set in `self` or in `other`.
    pub fn union(self, other: StateFlags) -> (flags: StateFlags)
        ensures
            flags@ == self@ | other@,
    {
        proof {
            use_type_invariant(self);
            use_type_invariant(other);
            let a = self.bits;
            let b = other.bits;
            assert(recognized(a | b)) by (bit_vector)
                requires
                    recognized(a),
                    recognized(b),
            ;
        }
        StateFlags { bits: self.bits | other.bits }
    }
}

/// The host's table in revision 2, each function as its address, 0 where the
/// host left it out. Revision 2 adds the module directory and the state flags.
#[derive(Debug, PartialEq, Eq)]
pub struct ApiTable {
    pub base: BaseApi,
    pub hook_jni_native_methods_fn: usize,
    pub plt_hook_register_fn: usize,
    pub plt_hook_exclude_fn: usize,
    pub plt_hook_commit_fn: usize,
    pub connect_companion_fn: usize,
    pub set_option_fn: usize,
    pub get_module_dir_fn: usize,
    pub get_flags_fn: usize,
}

/// The number of pointer-sized words that the host's table takes up in
/// revision 2.
pub const TABLE_WORDS: usize = 10;

impl ApiTable {
    /// The table that the host laid out as `words`: its handle of the session,
    /// then its functions, a word each, in the order of the fields.
    pub open spec fn of_words(words: Seq<usize>) -> ApiTable {
        ApiTable {
            base: BaseApi { this: words[0], register_module_fn: words[1] },
            hook_jni_native_methods_fn: words[2],
            plt_hook_register_fn: words[3],
            plt_hook_exclude_fn: words[4],
            plt_hook_commit_fn: words[5],
            connect_companion_fn: words[6],
            set_option_fn: words[7],
            get_module_dir_fn: words[8],
            get_flags_fn: words[9],
        }
    }

    /// Reads the table from the words the host laid it out as. Words beyond
    /// the table, which a later revision may have added, are not looked at;
    /// fewer words than the table has are no table.
    pub fn from_words(words: &[usize]) -> (table: Option<ApiTable>)
        ensures
            table is Some <==> words@.len() >= TABLE_WORDS,
            table matches Some(t) ==> t == ApiTable::of_words(words@),
    {
        if words.len() < TABLE_WORDS {
            None
        } else {
            Some(
                ApiTable {
                    base: BaseApi { this: words[0], register_module_fn: words[1] },
                    hook_jni_native_methods_fn: words[2],
                    plt_hook_register_fn: words[3],
                    plt_hook_exclude_fn: words[4],
                    plt_hook_commit_fn: words[5],
                    connect_companion_fn: words[6],
                    set_option_fn: words[7],
                    get_module_dir_fn: words[8],
                    get_flags_fn: words[9],
                },
            )
        }
    }

    /// The words that a host lays the table out as.
    pub fn to_words(&self) -> (words: Vec<usize>)
        ensures
            words@.len() == TABLE_WORDS,
            ApiTable::of_words(words@) == *self,
    {
        let mut words: Vec<usize> = Vec::with_capacity(TABLE_WORDS);
        words.push(self.base.this);
        words.push(self.base.register_module_fn);
        words.push(self.hook_jni_native_methods_fn);
        words.push(self.plt_hook_register_fn);
        words.push(self.plt_hook_exclude_fn);
        words.push(self.plt_hook_commit_fn);
        words.push(self.connect_companion_fn);
        words.push(self.set_option_fn);
        words.push(self.get_module_dir_fn);
        words.push(self.get_flags_fn);
        words
    }
}

impl ZygiskRaw for V2 {
    const API_VERSION: c_long = 2;

    type ApiTable = ApiTable;

    type AppSpecializeArgs = super::v1::AppSpecializeArgs;

    type ServerSpecializeArgs = super::v1::ServerSpecializeArgs;

    open spec fn revision() -> int {
        2
    }

    proof fn lemma_api_version() {
    }

    open spec fn registration_slot(table: &ApiTable) -> usize {
        table.base.register_module_fn
    }

    fn abi_from_module<'a, D>(module: RawModule<'a, V2, D>) -> (abi: ModuleAbi<'a, V2, D>) {
        ModuleAbi { api_version: Self::API_VERSION, this: module }
    }

    fn register_module_fn(table: ApiTableRef<'_, V2>) -> (function: usize) {
        table.raw.base.register_module_fn
    }
}

} // verus!
