//! A physical key as the platform identifies it.

use vstd::prelude::*;
use device_query::Keycode;
use crate::device::{debug_name, keycode_name};
use crate::keymap::{lemma_token_is_not_empty, normalize, normalized};

verus! {

/// One physical key, identified by the platform's name for it. Two keys are
/// the same key when their names are the same. The name is never empty.
#[derive(Debug)]
pub struct RawKey {
    name: String,
}

impl View for RawKey {
    type V = Seq<char>;

    /// The key's name.
    closed spec fn view(&self) -> Seq<char> {
        self.name@
    }
}

impl RawKey {
    /// A key has a name.
    #[verifier::type_invariant]
    pub open spec fn is_named(&self) -> bool {
        self@.len() > 0
    }

    /// The key with the given name, or nothing where the name is empty.
    pub fn from_name(name: &str) -> (key: Option<RawKey>)
        ensures
            name@.len() == 0 ==> key is None,
            name@.len() > 0 ==> key is Some && key->0@ == name@ && key->0.is_named(),
    {
        if name.is_empty() {
            None
        } else {
            Some(RawKey { name: name.to_owned() })
        }
    }

    /// The key that `device_query` reports as `key`, under the name that
    /// `device_query` prints for it.
    pub fn from_keycode(key: &Keycode) -> (raw: RawKey)
        ensures
            raw@ == keycode_name(*key),
            raw.is_named(),
    {
        RawKey { name: debug_name(key) }
    }

    /// The key's name.
    pub fn name(&self) -> (name: &str)
        ensures
            name@ == self@,
            name@.len() > 0,
    {
        proof {
            use_type_invariant(self);
        }
        self.name.as_str()
    }

    /// Whether `other` is the same key.
    pub fn same_key(&self, other: &RawKey) -> (same: bool)
        ensures
            same == (self@ == other@),
    {
        self.name == other.name
    }

    /// The token that stands for this key on the wire.
    pub fn token(&self) -> (token: String)
        ensures
            token@ == normalized(self@),
            token@.len() > 0,
    {
        proof {
            use_type_invariant(self);
            lemma_token_is_not_empty(self@);
        }
        normalize(self.name.as_str())
    }
}

impl Clone for RawKey {
    fn clone(&self) -> (copy: RawKey)
        ensures
            copy@ == self@,
            copy.is_named(),
    {
        proof {
            use_type_invariant(self);
        }
        RawKey { name: self.name.clone() }
    }
}

} // verus!
