use vstd::prelude::*;

use crate::error::DataError;

verus! {

/// The largest length the native boundary can carry: its lengths are C `int`s.
pub const NATIVE_LEN_MAX: usize = 2147483647;

/// The length handed to the native routine for an input of `len` units, or why
/// there is none.
pub open spec fn native_input_length(len: nat) -> Result<i32, DataError> {
    if len <= NATIVE_LEN_MAX {
        Ok(len as i32)
    } else {
        Err(DataError::InvalidArgument)
    }
}

/// The length to pass to a native routine for `data`: its length as a C `int`,
/// or `InvalidArgument` where that length does not fit.
pub fn input_length(data: &[u8]) -> (r: Result<i32, DataError>)
    ensures
        r == native_input_length(data@.len()),
{
    let len = data.len();
    if len <= NATIVE_LEN_MAX {
        Ok(len as i32)
    } else {
        Err(DataError::InvalidArgument)
    }
}

/// What a native call hands back, as seen by its caller: `Err(NativeCallFailed)`
/// where the output pointer is null or the output length is negative, else the
/// number of units the output holds.
pub open spec fn native_output_extent(output_is_null: bool, out_length: i32) -> Result<usize, DataError> {
    if output_is_null || out_length < 0 {
        Err(DataError::NativeCallFailed)
    } else {
        Ok(out_length as usize)
    }
}

/// Decides what a native call returned: a null output pointer (or a length no
/// buffer can have) is `NativeCallFailed`; otherwise the length the routine
/// reported is the authoritative number of units to copy.
pub fn output_extent(output_is_null: bool, out_length: i32) -> (r: Result<usize, DataError>)
    ensures
        r == native_output_extent(output_is_null, out_length),
{
    if output_is_null || out_length < 0 {
        Err(DataError::NativeCallFailed)
    } else {
        Ok(out_length as usize)
    }
}

/// Copies a native output, seen through a view of its authoritative length,
/// into an owned buffer: every unit, zero units included, in order.
pub fn copy_output<T: Copy>(view: &[T]) -> (r: Vec<T>)
    ensures
        r@ == view@,
{
    let mut out: Vec<T> = Vec::with_capacity(view.len());
    let mut i: usize = 0;
    while i < view.len()
        invariant
            i <= view@.len(),
            out@ == view@.subrange(0, i as int),
        decreases view@.len() - i,
    {
        out.push(view[i]);
        i = i + 1;
        assert(out@ =~= view@.subrange(0, i as int));
    }
    assert(out@ =~= view@);
    out
}

/// Whether `s` holds a zero byte.
pub open spec fn has_zero(s: Seq<u8>) -> bool {
    exists|i: int| 0 <= i < s.len() && s[i] == 0
}

/// What a native routine reads from a zero-terminated buffer: the bytes before
/// the first zero (all of them where there is none).
pub open spec fn c_string_content(s: Seq<u8>) -> Seq<u8>
    decreases s.len(),
{
    if s.len() == 0 {
        s
    } else if s[0] == 0 {
        Seq::empty()
    } else {
        seq![s[0]] + c_string_content(s.drop_first())
    }
}

/// Builds the zero-terminated form of `text` that a native routine reading up
/// to a terminator expects (a file name, Base64 text). A text that itself holds
/// a zero byte would be cut short there, and is refused with `InvalidArgument`.
pub fn nul_terminated(text: &[u8]) -> (r: Result<Vec<u8>, DataError>)
    ensures
        has_zero(text@) ==> r == Err::<Vec<u8>, DataError>(DataError::InvalidArgument),
        !has_zero(text@) ==> r is Ok && r->Ok_0@ == text@.push(0),
{
    let mut out: Vec<u8> = Vec::with_capacity(text.len());
    let mut i: usize = 0;
    while i < text.len()
        invariant
            i <= text@.len(),
            out@ == text@.subrange(0, i as int),
            forall|j: int| 0 <= j < i ==> text@[j] != 0,
        decreases text@.len() - i,
    {
        let b = text[i];
        if b == 0 {
            return Err(DataError::InvalidArgument);
        }
        out.push(b);
        i = i + 1;
        assert(out@ =~= text@.subrange(0, i as int));
    }
    assert(out@ =~= text@);
    out.push(0);
    Ok(out)
}

/// A terminated text reads back whole: for a text without a zero byte, a
/// native routine that reads its zero-terminated form up to the terminator
/// sees exactly the text.
pub proof fn lemma_terminated_reads_back(text: Seq<u8>)
    requires
        !has_zero(text),
    ensures
        c_string_content(text.push(0)) == text,
    decreases text.len(),
{
    if text.len() == 0 {
        assert(text.push(0)[0] == 0);
        assert(text =~= Seq::<u8>::empty());
    } else {
        let rest = text.drop_first();
        assert(!has_zero(rest)) by {
            if has_zero(rest) {
                let k = choose|k: int| 0 <= k < rest.len() && rest[k] == 0;
                assert(text[k + 1] == 0);
            }
        }
        lemma_terminated_reads_back(rest);
        assert(text[0] != 0);
        assert(text.push(0).drop_first() =~= rest.push(0));
        assert(seq![text[0]] + rest =~= text);
    }
}

} // verus!
