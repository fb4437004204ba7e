//! The keys that are down at one instant.

use vstd::prelude::*;
use vstd::seq_lib::seq_to_set_is_finite;
use vstd::set_lib::lemma_subset_equality;
use device_query::Keycode;
use crate::device::keycode_name;
use crate::raw_key::RawKey;

verus! {

/// The elements of `s` in the order of their first occurrence, each once.
pub open spec fn distinct<A>(s: Seq<A>) -> Seq<A>
    decreases s.len(),
{
    if s.len() == 0 {
        Seq::empty()
    } else {
        let before = distinct(s.drop_last());
        if before.contains(s.last()) {
            before
        } else {
            before.push(s.last())
        }
    }
}

/// `distinct(s)` holds what `s` holds, and nothing twice.
pub proof fn lemma_distinct<A>(s: Seq<A>)
    ensures
        distinct(s).no_duplicates(),
        distinct(s).to_set() == s.to_set(),
        distinct(s).len() <= s.len(),
    decreases s.len(),
{
    if s.len() == 0 {
        assert(distinct(s).to_set() =~= s.to_set());
    } else {
        let front = s.drop_last();
        let before = distinct(front);
        lemma_distinct(front);
        assert(s =~= front.push(s.last()));
        front.lemma_push_to_set_commute(s.last());
        before.lemma_push_to_set_commute(s.last());
        if before.contains(s.last()) {
            assert(before.to_set().insert(s.last()) =~= before.to_set());
        }
    }
}

/// Taking one more element of `s` into account.
pub proof fn lemma_distinct_step<A>(s: Seq<A>, i: int)
    requires
        0 <= i < s.len(),
    ensures
        distinct(s.take(i + 1)) == if distinct(s.take(i)).contains(s[i]) {
            distinct(s.take(i))
        } else {
            distinct(s.take(i)).push(s[i])
        },
{
    assert(s.take(i + 1).drop_last() =~= s.take(i));
    assert(s.take(i + 1).last() == s[i]);
}

/// The names of `keys`, in their order.
pub open spec fn names_of(keys: Seq<RawKey>) -> Seq<Seq<char>> {
    Seq::new(keys.len(), |i: int| keys[i]@)
}

/// The names under which `device_query` prints `keys`, in their order.
pub open spec fn keycode_names(keys: Seq<Keycode>) -> Seq<Seq<char>> {
    Seq::new(keys.len(), |i: int| keycode_name(keys[i]))
}

/// The set of keys that are down at one instant. It holds each key once,
/// in the order in which the keys were reported. Two snapshots are equal as
/// sets, whatever their order.
#[derive(Debug)]
pub struct KeySnapshot {
    keys: Vec<RawKey>,
}

impl View for KeySnapshot {
    type V = Set<Seq<char>>;

    /// The names of the keys that are down.
    open spec fn view(&self) -> Set<Seq<char>> {
        self.names().to_set()
    }
}

impl KeySnapshot {
    /// The names of the keys that are down, in the order in which they were
    /// reported.
    pub closed spec fn names(&self) -> Seq<Seq<char>> {
        names_of(self.keys@)
    }

    /// No key is held twice, and every key has a name.
    #[verifier::type_invariant]
    pub open spec fn wf(&self) -> bool {
        &&& self.names().no_duplicates()
        &&& forall|i: int| 0 <= i < self.names().len() ==> (#[trigger] self.names()[i]).len() > 0
    }

    /// A well-formed snapshot holds as many names as its set has members.
    pub proof fn lemma_len(&self)
        requires
            self.wf(),
        ensures
            self@.finite(),
            self@.len() == self.names().len(),
    {
        seq_to_set_is_finite(self.names());
        self.names().unique_seq_to_set();
    }

    /// The snapshot with no key down.
    pub fn new() -> (snapshot: KeySnapshot)
        ensures
            snapshot.names() == Seq::<Seq<char>>::empty(),
            snapshot@ == Set::<Seq<char>>::empty(),
            snapshot.wf(),
    {
        let snapshot = KeySnapshot { keys: Vec::new() };
        assert(snapshot.names() =~= Seq::<Seq<char>>::empty());
        assert(snapshot@ =~= Set::<Seq<char>>::empty());
        snapshot
    }

    /// How many keys are down.
    pub fn len(&self) -> (n: usize)
        ensures
            n == self.names().len(),
            n == self@.len(),
    {
        proof {
            use_type_invariant(self);
            self.lemma_len();
        }
        self.keys.len()
    }

    /// Whether no key is down.
    pub fn is_empty(&self) -> (empty: bool)
        ensures
            empty == (self.names().len() == 0),
            empty == self@.is_empty(),
    {
        proof {
            if self.names().len() > 0 {
                assert(self@.contains(self.names()[0]));
            }
        }
        self.keys.len() == 0
    }

    /// The keys that are down, in the order in which they were reported.
    pub fn keys(&self) -> (keys: &Vec<RawKey>)
        ensures
            names_of(keys@) == self.names(),
    {
        &self.keys
    }

    /// Whether `key` is down.
    pub fn contains(&self, key: &RawKey) -> (found: bool)
        ensures
            found == self@.contains(key@),
    {
        let n: usize = self.keys.len();
        let mut i: usize = 0;
        while i < n
            invariant
                i <= n,
                n == self.keys@.len(),
                forall|j: int| 0 <= j < i ==> self.names()[j] != key@,
            decreases n - i,
        {
            if self.keys[i].same_key(key) {
                assert(self.names()[i as int] == key@);
                return true;
            }
            i = i + 1;
        }
        false
    }

    /// This snapshot with `key` down as well. A key that was down already
    /// keeps its place; a new one comes last.
    pub fn with_key(self, key: RawKey) -> (snapshot: KeySnapshot)
        ensures
            snapshot.names() == if self@.contains(key@) {
                self.names()
            } else {
                self.names().push(key@)
            },
            snapshot@ == self@.insert(key@),
            snapshot.wf(),
    {
        proof {
            use_type_invariant(&self);
            use_type_invariant(&key);
            self.names().lemma_push_to_set_commute(key@);
        }
        if self.contains(&key) {
            assert(self@.insert(key@) =~= self@);
            self
        } else {
            let ghost before = self.names();
            let mut keys = self.keys;
            keys.push(key);
            proof {
                let after = names_of(keys@);
                assert(after =~= before.push(key@));
                assert forall|i: int, j: int|
                    0 <= i < after.len() && 0 <= j < after.len() && i != j implies after[i]
                    != after[j] by {
                    if i < before.len() {
                        assert(before.contains(before[i]));
                    }
                    if j < before.len() {
                        assert(before.contains(before[j]));
                    }
                }
            }
            KeySnapshot { keys }
        }
    }

    /// The snapshot of the keys in `keys`: each of them once, in the order
    /// of their first occurrence.
    pub fn from_keys(keys: &Vec<RawKey>) -> (snapshot: KeySnapshot)
        ensures
            snapshot.names() == distinct(names_of(keys@)),
            snapshot@ == names_of(keys@).to_set(),
            snapshot.wf(),
    {
        let ghost all = names_of(keys@);
        let mut snapshot = KeySnapshot::new();
        let n: usize = keys.len();
        let mut i: usize = 0;
        assert(all.take(0) =~= Seq::<Seq<char>>::empty());
        while i < n
            invariant
                i <= n,
                n == keys@.len(),
                all == names_of(keys@),
                snapshot.names() == distinct(all.take(i as int)),
                snapshot.wf(),
            decreases n - i,
        {
            proof {
                lemma_distinct_step(all, i as int);
            }
            snapshot = snapshot.with_key(keys[i].clone());
            i = i + 1;
        }
        proof {
            assert(all.take(n as int) =~= all);
            lemma_distinct(all);
        }
        snapshot
    }

    /// The snapshot of the keys that `device_query` reported as `keys`: each
    /// of them once, under the name that `device_query` prints for it, in
    /// the order of their first occurrence.
    pub fn from_keycodes(keys: &Vec<Keycode>) -> (snapshot: KeySnapshot)
        ensures
            snapshot.names() == distinct(keycode_names(keys@)),
            snapshot@ == keycode_names(keys@).to_set(),
            snapshot.wf(),
    {
        let ghost all = keycode_names(keys@);
        let mut snapshot = KeySnapshot::new();
        let n: usize = keys.len();
        let mut i: usize = 0;
        assert(all.take(0) =~= Seq::<Seq<char>>::empty());
        while i < n
            invariant
                i <= n,
                n == keys@.len(),
                all == keycode_names(keys@),
                snapshot.names() == distinct(all.take(i as int)),
                snapshot.wf(),
            decreases n - i,
        {
            proof {
                lemma_distinct_step(all, i as int);
            }
            snapshot = snapshot.with_key(RawKey::from_keycode(&keys[i]));
            i = i + 1;
        }
        proof {
            assert(all.take(n as int) =~= all);
            lemma_distinct(all);
        }
        snapshot
    }

    /// Whether the same keys are down in `other`, in whatever order.
    pub fn same_keys(&self, other: &KeySnapshot) -> (same: bool)
        ensures
            same == (self@ == other@),
    {
        proof {
            use_type_invariant(self);
            use_type_invariant(other);
            self.lemma_len();
            other.lemma_len();
        }
        let n: usize = self.keys.len();
        if n != other.keys.len() {
            return false;
        }
        let mut i: usize = 0;
        while i < n
            invariant
                i <= n,
                n == self.keys@.len(),
                forall|j: int| 0 <= j < i ==> other@.contains(self.names()[j]),
            decreases n - i,
        {
            if !other.contains(&self.keys[i]) {
                assert(self@.contains(self.names()[i as int]));
                return false;
            }
            i = i + 1;
        }
        proof {
            assert(self@.subset_of(other@)) by {
                assert forall|a: Seq<char>| self@.contains(a) implies other@.contains(a) by {
                    let j = choose|j: int| 0 <= j < self.names().len() && self.names()[j] == a;
                    assert(other@.contains(self.names()[j]));
                }
            }
            lemma_subset_equality(self@, other@);
        }
        true
    }
}

} // verus!
