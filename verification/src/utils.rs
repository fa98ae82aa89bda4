use crate::error::ZygiskError;
use vstd::prelude::*;

verus! {

/// Two types side by side whose shapes are to be compared: a function pointer
/// travels through the host's table as a value of another pointer type, which
/// is sound only where the two agree in size and the first is aligned at least
/// as strictly as the second.
pub struct ShapeAssertion<T, U>(pub T, pub U);

impl<T, U> ShapeAssertion<T, U> {
    /// Whether `T` can stand in for `U`.
    pub open spec fn matches() -> bool {
        &&& vstd::layout::size_of::<T>() == vstd::layout::size_of::<U>()
        &&& vstd::layout::align_of::<U>() != 0
        &&& vstd::layout::align_of::<T>() % vstd::layout::align_of::<U>() == 0
    }

    /// Compares the two shapes on the machine the code runs on.
    pub fn check() -> (ok: bool)
        ensures
            ok == Self::matches(),
    {
        let size_t: usize = core::mem::size_of::<T>();
        let size_u: usize = core::mem::size_of::<U>();
        let align_t: usize = core::mem::align_of::<T>();
        let align_u: usize = core::mem::align_of::<U>();
        size_t == size_u && align_u != 0 && align_t % align_u == 0
    }
}

/// Whether `bytes` holds a NUL byte.
pub open spec fn has_nul(bytes: Seq<u8>) -> bool {
    exists|i: int| 0 <= i < bytes.len() && bytes[i] == 0
}

/// Whether the first NUL byte of `bytes` stands at `at`.
pub open spec fn first_nul(bytes: Seq<u8>, at: int) -> bool {
    &&& 0 <= at < bytes.len()
    &&& bytes[at] == 0
    &&& forall|j: int| 0 <= j < at ==> bytes[j] != 0
}

/// The place of the first NUL byte of `bytes`, if it holds one.
pub fn find_nul(bytes: &[u8]) -> (at: Option<usize>)
    ensures
        at is None <==> !has_nul(bytes@),
        at matches Some(i) ==> first_nul(bytes@, i as int),
{
    let mut i: usize = 0;
    while i < bytes.len()
        invariant
            i <= bytes@.len(),
            forall|j: int| 0 <= j < i ==> bytes@[j] != 0,
        decreases bytes@.len() - i,
    {
        if bytes[i] == 0 {
            return Some(i);
        }
        i += 1;
    }
    None
}

/// The NUL-terminated form of `bytes`, as the host reads strings: the bytes
/// followed by one NUL. A string that holds a NUL byte has no such form, and
/// the place of its first NUL is reported.
pub fn to_bytes_with_nul(bytes: &[u8]) -> (r: Result<Vec<u8>, ZygiskError>)
    ensures
        r is Ok <==> !has_nul(bytes@),
        r matches Ok(v) ==> v@ == bytes@.push(0u8),
        r matches Err(e) ==> exists|i: usize|
            e == ZygiskError::InteriorNul(i) && first_nul(bytes@, i as int),
{
    match find_nul(bytes) {
        Some(i) => Err(ZygiskError::InteriorNul(i)),
        None => {
            let mut v: Vec<u8> = Vec::with_capacity(bytes.len());
            let mut i: usize = 0;
            while i < bytes.len()
                invariant
                    i <= bytes@.len(),
                    v@ == bytes@.subrange(0, i as int),
                decreases bytes@.len() - i,
            {
                v.push(bytes[i]);
                i += 1;
            }
            assert(bytes@.subrange(0, bytes@.len() as int) == bytes@);
            v.push(0u8);
            Ok(v)
        },
    }
}

} // verus!
