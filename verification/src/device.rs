//! What the library takes from `device_query`: its key type, and the name
//! under which it prints a key.
//!
//! Nothing here is proved. The rest of the library rests on what this file
//! states.

use vstd::prelude::*;
use device_query::Keycode;

verus! {

/// The key type of `device_query`, carried through as it is.
#[verifier::external_type_specification]
#[verifier::external_body]
pub struct ExKeycode(device_query::Keycode);

/// The name under which `device_query` prints `key` for debugging.
pub uninterp spec fn keycode_name(key: Keycode) -> Seq<char>;

/// Formats `key` with the `Debug` impl that `device_query` derives for
/// `Keycode`. Not proved: that the text depends on the key alone, and that
/// it is the identifier of the key's variant, which is never empty.
#[verifier::external_body]
pub(crate) fn debug_name(key: &Keycode) -> (name: String)
    ensures
        name@ == keycode_name(*key),
        name@.len() > 0,
{
    format!("{:?}", key)
}

} // verus!
