//! The message that tells the peer which keys are down.
//!
//! A message is the word `KEYPRESS:` followed by the tokens of the keys that
//! are down, in the order of the snapshot, with `+` between them. A snapshot
//! with no key down has no message.

use vstd::prelude::*;
use vstd::string::StringExecFns;
use crate::keymap::{lemma_token_is_not_empty, normalized};
use crate::snapshot::{names_of, KeySnapshot};

verus! {

/// `parts` one after the other, with `separator` between each two.
pub open spec fn joined(parts: Seq<Seq<char>>, separator: Seq<char>) -> Seq<char>
    decreases parts.len(),
{
    if parts.len() == 0 {
        Seq::empty()
    } else if parts.len() == 1 {
        parts[0]
    } else {
        joined(parts.drop_last(), separator) + separator + parts.last()
    }
}

/// What each of `parts` holds, in their order.
pub open spec fn texts_of(parts: Seq<String>) -> Seq<Seq<char>> {
    Seq::new(parts.len(), |i: int| parts[i]@)
}

/// The tokens of the keys named `names`, in their order.
pub open spec fn tokens_of(names: Seq<Seq<char>>) -> Seq<Seq<char>> {
    Seq::new(names.len(), |i: int| normalized(names[i]))
}

/// The message for the keys named `names`.
pub open spec fn combo_message(names: Seq<Seq<char>>) -> Seq<char> {
    "KEYPRESS:"@ + joined(tokens_of(names), "+"@)
}

/// Joined parts are at least as long as the last of them.
pub proof fn lemma_joined_len(parts: Seq<Seq<char>>, separator: Seq<char>)
    requires
        parts.len() > 0,
    ensures
        joined(parts, separator).len() >= parts.last().len(),
{
}

/// A message for at least one key begins with `KEYPRESS:` and goes on with
/// at least one character of a token, as long as every key has a name.
pub proof fn lemma_message_holds_a_token(names: Seq<Seq<char>>)
    requires
        names.len() > 0,
        forall|i: int| 0 <= i < names.len() ==> (#[trigger] names[i]).len() > 0,
    ensures
        combo_message(names).len() > "KEYPRESS:"@.len(),
        combo_message(names).subrange(0, "KEYPRESS:"@.len() as int) == "KEYPRESS:"@,
{
    let tokens = tokens_of(names);
    lemma_joined_len(tokens, "+"@);
    lemma_token_is_not_empty(names.last());
    assert(tokens.last() == normalized(names.last()));
    assert(combo_message(names).subrange(0, "KEYPRESS:"@.len() as int) =~= "KEYPRESS:"@);
}

/// `parts` one after the other, with `separator` between each two.
pub fn join(parts: &Vec<String>, separator: &str) -> (text: String)
    ensures
        text@ == joined(texts_of(parts@), separator@),
{
    let ghost all = texts_of(parts@);
    let mut text = String::new();
    let n: usize = parts.len();
    let mut i: usize = 0;
    assert(all.take(0) =~= Seq::<Seq<char>>::empty());
    while i < n
        invariant
            i <= n,
            n == parts@.len(),
            all == texts_of(parts@),
            text@ == joined(all.take(i as int), separator@),
        decreases n - i,
    {
        if i > 0 {
            text.append(separator);
        }
        text.append(parts[i].as_str());
        proof {
            let now = all.take(i + 1);
            assert(now.drop_last() =~= all.take(i as int));
            assert(now.last() == parts@[i as int]@);
            if i == 0 {
                assert(text@ =~= now[0]);
            }
        }
        i = i + 1;
    }
    assert(all.take(n as int) =~= all);
    text
}

impl KeySnapshot {
    /// The tokens of the keys that are down, in the order of the snapshot.
    pub fn tokens(&self) -> (tokens: Vec<String>)
        ensures
            texts_of(tokens@) == tokens_of(self.names()),
    {
        let keys = self.keys();
        let mut tokens: Vec<String> = Vec::new();
        let n: usize = keys.len();
        let mut i: usize = 0;
        while i < n
            invariant
                i <= n,
                n == keys@.len(),
                names_of(keys@) == self.names(),
                tokens@.len() == i,
                forall|j: int| 0 <= j < i ==> tokens@[j]@ == normalized(#[trigger] self.names()[j]),
            decreases n - i,
        {
            let token = keys[i].token();
            assert(keys@[i as int]@ == self.names()[i as int]);
            tokens.push(token);
            i = i + 1;
        }
        assert(texts_of(tokens@) =~= tokens_of(self.names()));
        tokens
    }

    /// The message for this snapshot, or nothing where no key is down.
    pub fn combo_message(&self) -> (message: Option<String>)
        ensures
            self@.is_empty() ==> message is None,
            !self@.is_empty() ==> message is Some && message->0@ == combo_message(self.names()),
    {
        if self.is_empty() {
            None
        } else {
            let tokens = self.tokens();
            let combo = join(&tokens, "+");
            let mut message = String::from_str("KEYPRESS:");
            message.append(combo.as_str());
            Some(message)
        }
    }
}

} // verus!
