//! The input adapter: validates and borrows a foreign-supplied string
//! argument, without taking ownership of the caller's buffer.

use crate::encoding::is_utf8;
use crate::errors::BoundaryError;
use vstd::prelude::*;
use vstd::slice::slice_to_vec;
use vstd::utf8::valid_utf8;

verus! {

/// Accepts a borrowed string parameter. `name` labels the parameter for
/// diagnostics; `input` is the parameter's content, already read up to its
/// null terminator, or `None` when the caller passed a null pointer. The
/// returned view borrows the caller's bytes and lives only as long as they do.
pub fn accept_str<'a>(name: &[u8], input: Option<&'a [u8]>) -> (r: Result<
    &'a [u8],
    BoundaryError,
>)
    ensures
        input is None ==> (r matches Err(e) && e matches BoundaryError::NullPointer { name: n }
            && n@ == name@),
        input matches Some(b) ==> ({
            if valid_utf8(b@) {
                r == Ok::<&'a [u8], BoundaryError>(b)
            } else {
                r matches Err(e) && e matches BoundaryError::InvalidEncoding { name: n } && n@
                    == name@
            }
        }),
{
    match input {
        None => Err(BoundaryError::NullPointer { name: slice_to_vec(name) }),
        Some(b) => {
            if is_utf8(b) {
                Ok(b)
            } else {
                Err(BoundaryError::InvalidEncoding { name: slice_to_vec(name) })
            }
        },
    }
}

} // verus!
