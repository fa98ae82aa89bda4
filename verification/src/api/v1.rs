use super::{
    commit_answer,
    commit_outcome,
    companion_outcome,
    connect_companion_through,
    exclude_outcome,
    hook_jni_native_methods_through,
    hook_outcome,
    hooks_applied,
    pattern_hook_outcome,
    plt_hook_commit_through,
    plt_hook_exclude_through,
    plt_hook_register_through,
    set_option_outcome,
    set_option_through,
    ZygiskApi,
};
use crate::error::ZygiskError;
use crate::host::{HostAbi, JniEnv, NativeMethod};
use crate::impl_sealing::Sealed;
use crate::raw::v1::ZygiskOption;
use crate::utils::has_nul;
use libc::c_int;
use vstd::prelude::*;

verus! {

/// Revision 1 of the host's ABI.
#[derive(Clone, Copy)]
pub struct V1;

impl Sealed for V1 {
}

impl<'a, H: HostAbi> ZygiskApi<'a, V1, H> {
    /// Connects to the companion process, runs `f` on the descriptor of the
    /// connection, and releases the descriptor when `f` has returned, so `f`
    /// has to leave it open. Where the host has no such function nothing is
    /// asked of it; where it answers that there is no connection, `f` does not
    /// run.
    pub fn with_companion<R, F: FnOnce(c_int) -> R>(&mut self, f: F) -> (r: Result<R, ZygiskError>)
        requires
            forall|fd: c_int| fd != -1 ==> f.requires((fd,)),
        ensures
            final(self).table == old(self).table,
            *final(final(self).host) == *final(old(self).host),
            companion_outcome(
                old(self).slots().connect_companion_fn,
                old(self).slots().base.this,
                f,
                old(self).log@,
                final(self).log@,
                r,
            ),
            old(self).slots().connect_companion_fn == 0 ==> *final(self).host == *old(self).host,
            old(self).slots().connect_companion_fn != 0 ==> exists|h: &mut H, fd: c_int|
                {
                    &&& *h == *old(self).host
                    &&& call_ensures(
                        <H as HostAbi>::connect_companion,
                        (
                            h,
                            old(self).slots().connect_companion_fn,
                            old(self).slots().base.this,
                        ),
                        fd,
                    )
                    &&& if fd == -1 {
                        &&& *final(h) == *final(self).host
                        &&& r matches Err(e) && e == ZygiskError::ConnectCompanionFailed
                    } else {
                        exists|closing: &mut H|
                            {
                                &&& *closing == *final(h)
                                &&& *final(closing) == *final(self).host
                                &&& call_ensures(<H as HostAbi>::close_companion, (closing, fd), ())
                                &&& r matches Ok(v) && f.ensures((fd,), v)
                            }
                    }
                },
    {
        let table = self.table.raw;
        connect_companion_through(
            &mut *self.host,
            &mut self.log,
            table.connect_companion_fn,
            table.base.this,
            f,
        )
    }

    /// Sets one option of the module. Where the host has no such function
    /// nothing happens.
    pub fn set_option(&mut self, option: ZygiskOption)
        ensures
            final(self).table == old(self).table,
            *final(final(self).host) == *final(old(self).host),
            set_option_outcome(
                old(self).slots().set_option_fn,
                old(self).slots().base.this,
                option,
                old(self).log@,
                final(self).log@,
            ),
            old(self).slots().set_option_fn == 0 ==> *final(self).host == *old(self).host,
            old(self).slots().set_option_fn != 0 ==> exists|h: &mut H|
                {
                    &&& *h == *old(self).host
                    &&& *final(h) == *final(self).host
                    &&& call_ensures(
                        <H as HostAbi>::set_option,
                        (
                            h,
                            old(self).slots().set_option_fn,
                            old(self).slots().base.this,
                            option,
                        ),
                        (),
                    )
                },
    {
        let table = self.table.raw;
        set_option_through(&mut *self.host, &mut self.log, table.set_option_fn, table.base.this, option)
    }

    /// Has the host replace the native methods of the class `class_name` that
    /// `methods` describes. Afterwards each descriptor holds the address that
    /// the host left in it: that of the function it replaced, or 0 where it
    /// found no match.
    pub fn hook_jni_native_methods(
        &mut self,
        env: JniEnv,
        class_name: &[u8],
        methods: &mut Vec<NativeMethod>,
    ) -> (r: Result<(), ZygiskError>)
        requires
            old(methods)@.len() <= c_int::MAX,
        ensures
            final(self).table == old(self).table,
            *final(final(self).host) == *final(old(self).host),
            hook_outcome(
                old(self).slots().hook_jni_native_methods_fn,
                env,
                class_name@,
                old(methods)@,
                final(methods)@,
                old(self).log@,
                final(self).log@,
                r,
            ),
            r is Err ==> *final(self).host == *old(self).host,
            !has_nul(class_name@) && old(self).slots().hook_jni_native_methods_fn != 0 ==> exists|
                h: &mut H,
                class: &[u8],
                descriptors: &[NativeMethod],
                count: c_int,
                answer: Vec<usize>,
            |
                {
                    &&& *h == *old(self).host
                    &&& *final(h) == *final(self).host
                    &&& class@ == class_name@.push(0u8)
                    &&& descriptors@ == old(methods)@
                    &&& count == old(methods)@.len()
                    &&& call_ensures(
                        <H as HostAbi>::hook_jni_native_methods,
                        (
                            h,
                            old(self).slots().hook_jni_native_methods_fn,
                            env,
                            class,
                            descriptors,
                            count,
                        ),
                        answer,
                    )
                    &&& hooks_applied(old(methods)@, final(methods)@, answer@)
                },
    {
        let table = self.table.raw;
        hook_jni_native_methods_through(
            &mut *self.host,
            &mut self.log,
            table.hook_jni_native_methods_fn,
            env,
            class_name,
            methods,
        )
    }

    /// Registers a hook that puts the function at `new_func` in place of
    /// `symbol` in the images whose name matches `regex`, and returns the
    /// address of the function that was there before, 0 if there was none. An
    /// empty `symbol` stands for every symbol. The hook takes effect with the
    /// next commit.
    pub fn plt_hook_register(&mut self, regex: &[u8], symbol: &[u8], new_func: usize) -> (r: Result<
        usize,
        ZygiskError,
    >)
        requires
            new_func != 0,
        ensures
            final(self).table == old(self).table,
            *final(final(self).host) == *final(old(self).host),
            pattern_hook_outcome(
                old(self).slots().plt_hook_register_fn,
                regex@,
                symbol@,
                new_func,
                old(self).log@,
                final(self).log@,
                r,
            ),
            r is Err ==> *final(self).host == *old(self).host,
            !has_nul(regex@) && !has_nul(symbol@) && old(self).slots().plt_hook_register_fn != 0 ==> exists|
                h: &mut H,
                pattern: &[u8],
                name: &[u8],
                answer: usize,
            |
                {
                    &&& *h == *old(self).host
                    &&& *final(h) == *final(self).host
                    &&& pattern@ == regex@.push(0u8)
                    &&& name@ == symbol@.push(0u8)
                    &&& call_ensures(
                        <H as HostAbi>::plt_hook_register,
                        (h, old(self).slots().plt_hook_register_fn, pattern, name, new_func),
                        answer,
                    )
                    &&& r == Ok::<usize, ZygiskError>(answer)
                },
    {
        let table = self.table.raw;
        plt_hook_register_through(
            &mut *self.host,
            &mut self.log,
            table.plt_hook_register_fn,
            regex,
            symbol,
            new_func,
        )
    }

    /// Takes the hooks registered for `symbol` in the images whose name matches
    /// `regex` out of what the next commit applies; an empty `symbol` stands
    /// for every symbol. Where the host has no such function nothing happens.
    pub fn plt_hook_exclude(&mut self, regex: &[u8], symbol: &[u8]) -> (r: Result<(), ZygiskError>)
        ensures
            final(self).table == old(self).table,
            *final(final(self).host) == *final(old(self).host),
            exclude_outcome(
                old(self).slots().plt_hook_exclude_fn,
                regex@,
                symbol@,
                old(self).log@,
                final(self).log@,
                r,
            ),
            r is Err || old(self).slots().plt_hook_exclude_fn == 0 ==> *final(self).host == *old(
                self,
            ).host,
            !has_nul(regex@) && !has_nul(symbol@) && old(self).slots().plt_hook_exclude_fn != 0 ==> exists|
                h: &mut H,
                pattern: &[u8],
                name: &[u8],
            |
                {
                    &&& *h == *old(self).host
                    &&& *final(h) == *final(self).host
                    &&& pattern@ == regex@.push(0u8)
                    &&& name@ == symbol@.push(0u8)
                    &&& call_ensures(
                        <H as HostAbi>::plt_hook_exclude,
                        (
                            h,
                            old(self).slots().plt_hook_exclude_fn,
                            pattern,
                            name,
                        ),
                        (),
                    )
                },
    {
        let table = self.table.raw;
        plt_hook_exclude_through(&mut *self.host, &mut self.log, table.plt_hook_exclude_fn, regex, symbol)
    }

    /// Has the host apply what was registered and excluded since the last
    /// commit.
    pub fn plt_hook_commit(&mut self) -> (r: Result<(), ZygiskError>)
        ensures
            final(self).table == old(self).table,
            *final(final(self).host) == *final(old(self).host),
            commit_outcome(
                old(self).slots().plt_hook_commit_fn,
                old(self).log@,
                final(self).log@,
                r,
            ),
            old(self).slots().plt_hook_commit_fn == 0 ==> *final(self).host == *old(self).host,
            old(self).slots().plt_hook_commit_fn != 0 ==> exists|h: &mut H, answer: bool|
                {
                    &&& *h == *old(self).host
                    &&& *final(h) == *final(self).host
                    &&& call_ensures(
                        <H as HostAbi>::plt_hook_commit,
                        (
                            h,
                            old(self).slots().plt_hook_commit_fn,
                        ),
                        answer,
                    )
                    &&& r == commit_answer(answer)
                },
    {
        let table = self.table.raw;
        plt_hook_commit_through(&mut *self.host, &mut self.log, table.plt_hook_commit_fn)
    }
}

} // verus!
