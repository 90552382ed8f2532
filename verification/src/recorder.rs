//! One build-and-record cycle, after the builder has run: extract the image
//! identifier from the captured output and commit it to the store. The log is
//! replaced only after successful extraction, so any failure leaves it at its
//! pre-build state.

use vstd::prelude::*;

use crate::errors::CoreError;
use crate::extract::extract;
use crate::extract::spec_extract;
use crate::record::log_image;
use crate::record::spec_append_if_absent;
use crate::record::Store;
use crate::textops::spec_join;

verus! {

/// Extracts the identifier from the captured builder output and records it:
/// on success the stored log is replaced with the old log plus the new
/// identifier (unchanged when already recorded), and the identifier is
/// returned; on a protocol failure the store is untouched.
pub fn record_build(store: &mut Store, output: &str) -> (r: Result<String, CoreError>)
    ensures
        spec_extract(output@) matches Ok(h) ==> {
            &&& r matches Ok(rh) && rh@ == h
            &&& final(store).stored() == Some(
                spec_join(spec_append_if_absent(old(store).spec_load(), h), '\n'),
            )
            &&& final(store).staged_content() is None
        },
        spec_extract(output@) matches Err(p) ==> {
            &&& r == Err::<String, CoreError>(CoreError::Protocol(p))
            &&& *final(store) == *old(store)
        },
{
    match extract(output) {
        Ok(hash) => {
            log_image(store, &hash);
            Ok(hash)
        },
        Err(p) => Err(CoreError::Protocol(p)),
    }
}

} // verus!
