//! Change detection: a message whenever the keys that are down are others
//! than at the sample before, unless no key is down.

use vstd::prelude::*;
use crate::combo::combo_message;
use crate::snapshot::KeySnapshot;

verus! {

/// Whether the sample `current`, taken after `previous`, is announced: it
/// holds other keys than `previous`, and at least one.
pub open spec fn emits(previous: KeySnapshot, current: KeySnapshot) -> bool {
    current@ != previous@ && !current@.is_empty()
}

/// The message that announces the sample `current`, taken after `previous`,
/// if it is announced.
pub open spec fn tick_message(previous: KeySnapshot, current: KeySnapshot) -> Option<Seq<char>> {
    if emits(previous, current) {
        Some(combo_message(current.names()))
    } else {
        None
    }
}

/// The snapshot that is remembered once `current` was sampled after
/// `previous`: `current` where it holds other keys, else still `previous`.
pub open spec fn tick_state(previous: KeySnapshot, current: KeySnapshot) -> KeySnapshot {
    if current@ == previous@ {
        previous
    } else {
        current
    }
}

/// Whatever was remembered before, after a sample the keys of that sample
/// are remembered.
pub proof fn lemma_sample_is_remembered(previous: KeySnapshot, current: KeySnapshot)
    ensures
        tick_state(previous, current)@ == current@,
{
}

/// A sample that holds the same keys as the one before it is not announced,
/// whatever was remembered before the two.
pub proof fn lemma_repeated_sample_is_silent(
    previous: KeySnapshot,
    first: KeySnapshot,
    second: KeySnapshot,
)
    requires
        first@ == second@,
    ensures
        tick_message(tick_state(previous, first), second) is None,
        tick_state(tick_state(previous, first), second) == tick_state(previous, first),
{
}

/// When all keys are released nothing is announced, but the release is
/// remembered: the next sample with a key down is announced, also where it
/// holds the very keys that were down before the release.
pub proof fn lemma_release_is_silent_but_remembered(
    previous: KeySnapshot,
    released: KeySnapshot,
    next: KeySnapshot,
)
    requires
        !previous@.is_empty(),
        released@.is_empty(),
        !next@.is_empty(),
    ensures
        tick_message(previous, released) is None,
        tick_state(previous, released) == released,
        tick_message(tick_state(previous, released), next) == Some(combo_message(next.names())),
{
    assert(released@ =~= Set::<Seq<char>>::empty());
    assert(next@ != released@);
    assert(previous@ != released@);
}

/// Remembers the last sample and tells when a new one is to be announced.
#[derive(Debug)]
pub struct ChangeDetectingPoller {
    previous: KeySnapshot,
}

impl ChangeDetectingPoller {
    /// The snapshot that is remembered.
    pub closed spec fn previous(&self) -> KeySnapshot {
        self.previous
    }

    /// A poller that remembers no key down.
    pub fn new() -> (poller: ChangeDetectingPoller)
        ensures
            poller.previous().names() == Seq::<Seq<char>>::empty(),
            poller.previous()@ == Set::<Seq<char>>::empty(),
    {
        ChangeDetectingPoller { previous: KeySnapshot::new() }
    }

    /// The snapshot that is remembered.
    pub fn last_snapshot(&self) -> (snapshot: &KeySnapshot)
        ensures
            *snapshot == self.previous(),
    {
        &self.previous
    }

    /// Takes the sample `current`. Where it holds other keys than the
    /// remembered snapshot, it is remembered in its place, and where it also
    /// holds at least one key, its message is returned.
    pub fn tick(&mut self, current: KeySnapshot) -> (message: Option<String>)
        ensures
            final(self).previous() == tick_state(old(self).previous(), current),
            match message {
                Some(text) => tick_message(old(self).previous(), current) == Some(text@),
                None => tick_message(old(self).previous(), current) is None,
            },
    {
        if current.same_keys(&self.previous) {
            None
        } else {
            let message = current.combo_message();
            self.previous = current;
            message
        }
    }
}

} // verus!
