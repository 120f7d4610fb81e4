//! The object store: shared application state that handlers may read and
//! mutate, keyed independently per logical state item.
//!
//! State values form a closed set of kinds ([`StoreValue`]) so the runtime
//! never needs runtime type inspection, and mutation is expressed as a closed
//! set of read-modify-write operations ([`MutateOp`]) applied atomically to
//! one key.  The contracts pin each operation down to a map update on the
//! store's model, so distinct keys never affect one another
//! ([`lemma_mutate_independent_keys`]).

use vstd::prelude::*;
use vstd::hash_map::StringHashMap;
use crate::messages::clone_bytes;

verus! {

/// Mathematical model of a stored value.
pub enum StoreValueV {
    Counter(u64),
    Bytes(Seq<u8>),
}

/// A stored value: one of a closed set of state kinds.
pub enum StoreValue {
    /// A saturating-free counter; incremented through [`MutateOp::Increment`].
    Counter(u64),
    /// An opaque byte blob.
    Bytes(Vec<u8>),
}

impl View for StoreValue {
    type V = StoreValueV;

    open spec fn view(&self) -> StoreValueV {
        match self {
            StoreValue::Counter(c) => StoreValueV::Counter(*c),
            StoreValue::Bytes(b) => StoreValueV::Bytes(b@),
        }
    }
}

impl StoreValue {
    /// Deep copy of the value.
    pub fn duplicate(&self) -> (r: StoreValue)
        ensures
            r@ == self@,
    {
        match self {
            StoreValue::Counter(c) => StoreValue::Counter(*c),
            StoreValue::Bytes(b) => StoreValue::Bytes(clone_bytes(b)),
        }
    }
}

/// A read-modify-write operation on one key.
pub enum MutateOp {
    /// Adds one to the counter stored at the key; a missing key counts as
    /// zero.  Fails on a non-counter value or at the counter's ceiling.
    Increment,
    /// Stores the given value at the key, whatever was there before.
    Replace(StoreValue),
}

impl View for MutateOp {
    type V = MutateOpV;

    open spec fn view(&self) -> MutateOpV {
        match self {
            MutateOp::Increment => MutateOpV::Increment,
            MutateOp::Replace(v) => MutateOpV::Replace(v@),
        }
    }
}

/// Mathematical model of a [`MutateOp`].
pub enum MutateOpV {
    Increment,
    Replace(StoreValueV),
}

/// Why a mutation was refused.  The key is left exactly as it was.
#[derive(PartialEq, Eq, Structural, Clone, Copy, Debug)]
pub enum StoreError {
    /// [`MutateOp::Increment`] met a value that is not a counter.
    NotACounter,
    /// [`MutateOp::Increment`] met a counter at its ceiling.
    CounterOverflow,
}

/// The counter value an increment starts from: the stored counter, or zero
/// for a missing key.  A non-counter value has no base.
pub open spec fn counter_base(m: Map<Seq<char>, StoreValueV>, key: Seq<char>) -> Option<u64> {
    if m.contains_key(key) {
        match m[key] {
            StoreValueV::Counter(c) => Some(c),
            StoreValueV::Bytes(_) => None,
        }
    } else {
        Some(0)
    }
}

/// Whether `op` applies cleanly at `key` in store model `m`.
pub open spec fn mutate_ok(m: Map<Seq<char>, StoreValueV>, key: Seq<char>, op: MutateOpV) -> bool {
    match op {
        MutateOpV::Increment => counter_base(m, key) matches Some(c) && c < u64::MAX,
        MutateOpV::Replace(_) => true,
    }
}

/// The value left at `key` after a clean application of `op`.
pub open spec fn mutate_value(m: Map<Seq<char>, StoreValueV>, key: Seq<char>, op: MutateOpV) -> StoreValueV
    recommends
        mutate_ok(m, key, op),
{
    match op {
        MutateOpV::Increment => StoreValueV::Counter((counter_base(m, key)->Some_0 + 1) as u64),
        MutateOpV::Replace(v) => v,
    }
}

/// The store model after `op` at `key`: a single-key update when the
/// operation applies, the unchanged model when it is refused.
pub open spec fn store_after_mutate(m: Map<Seq<char>, StoreValueV>, key: Seq<char>, op: MutateOpV) -> Map<Seq<char>, StoreValueV> {
    if mutate_ok(m, key, op) {
        m.insert(key, mutate_value(m, key, op))
    } else {
        m
    }
}

/// The error a refused mutation reports.
pub open spec fn mutate_error(m: Map<Seq<char>, StoreValueV>, key: Seq<char>, op: MutateOpV) -> StoreError
    recommends
        !mutate_ok(m, key, op),
{
    if counter_base(m, key) is None {
        StoreError::NotACounter
    } else {
        StoreError::CounterOverflow
    }
}

/// A concurrent-safe mapping from state key to shared application state.
///
/// Independent keys never contend: every operation's contract is a
/// single-key update of the store's model, leaving all other keys exactly
/// as they were.
pub struct ObjectStore {
    entries: StringHashMap<StoreValue>,
}

impl View for ObjectStore {
    type V = Map<Seq<char>, StoreValueV>;

    closed spec fn view(&self) -> Map<Seq<char>, StoreValueV> {
        self.entries@.map_values(|v: StoreValue| v@)
    }
}

impl ObjectStore {
    /// An empty store.
    pub fn new() -> (r: ObjectStore)
        ensures
            r@ == Map::<Seq<char>, StoreValueV>::empty(),
    {
        let r = ObjectStore { entries: StringHashMap::new() };
        proof {
            assert(r@ =~= Map::<Seq<char>, StoreValueV>::empty());
        }
        r
    }

    /// Stores `value` under `key`, replacing any previous value.
    pub fn insert(&mut self, key: String, value: StoreValue)
        ensures
            final(self)@ == old(self)@.insert(key@, value@),
    {
        let ghost before = self@;
        let ghost v_view = value@;
        self.entries.insert(key, value);
        proof {
            assert(self@ =~= before.insert(key@, v_view));
        }
    }

    /// Looks up the value stored under `key`.
    pub fn get<'a>(&'a self, key: &str) -> (r: Option<&'a StoreValue>)
        ensures
            match r {
                Some(v) => self@.contains_key(key@) && v@ == self@[key@],
                None => !self@.contains_key(key@),
            },
    {
        self.entries.get(key)
    }

    /// Whether a value is stored under `key`.
    pub fn contains_key(&self, key: &str) -> (r: bool)
        ensures
            r == self@.contains_key(key@),
    {
        self.entries.contains_key(key)
    }

    /// Atomically applies the read-modify-write `op` to the value under
    /// `key` and returns the value now stored there.
    ///
    /// The operation sees a consistent prior value: the result is a function
    /// of exactly the value stored under `key` when the call began, and no
    /// other key is read or written.  A refused operation leaves the whole
    /// store untouched and reports why.
    pub fn mutate(&mut self, key: &String, op: MutateOp) -> (r: Result<StoreValue, StoreError>)
        ensures
            final(self)@ == store_after_mutate(old(self)@, key@, op@),
            mutate_ok(old(self)@, key@, op@) ==> (r matches Ok(v) && v@ == mutate_value(old(self)@, key@, op@)),
            !mutate_ok(old(self)@, key@, op@) ==> r == Err::<StoreValue, StoreError>(mutate_error(old(self)@, key@, op@)),
    {
        let ghost before = self@;
        match op {
            MutateOp::Increment => {
                let base: u64 = match self.entries.get(key.as_str()) {
                    Some(StoreValue::Counter(c)) => *c,
                    Some(StoreValue::Bytes(_)) => {
                        return Err(StoreError::NotACounter);
                    },
                    None => 0,
                };
                if base == u64::MAX {
                    return Err(StoreError::CounterOverflow);
                }
                let next = base + 1;
                self.entries.insert(key.clone(), StoreValue::Counter(next));
                proof {
                    assert(self@ =~= store_after_mutate(before, key@, MutateOpV::Increment));
                }
                Ok(StoreValue::Counter(next))
            },
            MutateOp::Replace(v) => {
                let ghost v_view = v@;
                let stored = v.duplicate();
                self.entries.insert(key.clone(), v);
                proof {
                    assert(self@ =~= store_after_mutate(before, key@, MutateOpV::Replace(v_view)));
                }
                Ok(stored)
            },
        }
    }
}

/// Mutations of two different keys are independent: they commute, and
/// neither changes what the other reads, so concurrent callers of
/// [`ObjectStore::mutate`] on distinct keys can be serialized in either
/// order with the same outcome.
pub proof fn lemma_mutate_independent_keys(
    m: Map<Seq<char>, StoreValueV>,
    k1: Seq<char>,
    k2: Seq<char>,
    op1: MutateOpV,
    op2: MutateOpV,
)
    requires
        k1 != k2,
    ensures
        store_after_mutate(store_after_mutate(m, k1, op1), k2, op2)
            == store_after_mutate(store_after_mutate(m, k2, op2), k1, op1),
        mutate_ok(store_after_mutate(m, k1, op1), k2, op2) == mutate_ok(m, k2, op2),
        mutate_ok(m, k2, op2) ==> mutate_value(store_after_mutate(m, k1, op1), k2, op2)
            == mutate_value(m, k2, op2),
{
    assert(counter_base(store_after_mutate(m, k1, op1), k2) == counter_base(m, k2));
    assert(store_after_mutate(store_after_mutate(m, k1, op1), k2, op2)
        =~= store_after_mutate(store_after_mutate(m, k2, op2), k1, op1));
}

/// Serialized increments of one key count without gaps or repeats: a
/// clean increment moves the key's counter from `c` to `c + 1` and
/// returns `c + 1`, so each increment in a run returns a value distinct
/// from every earlier one.
pub proof fn lemma_increment_steps_counter(m: Map<Seq<char>, StoreValueV>, key: Seq<char>)
    requires
        mutate_ok(m, key, MutateOpV::Increment),
    ensures
        counter_base(store_after_mutate(m, key, MutateOpV::Increment), key) == Some(
            (counter_base(m, key)->Some_0 + 1) as u64,
        ),
        mutate_value(m, key, MutateOpV::Increment) == StoreValueV::Counter(
            (counter_base(m, key)->Some_0 + 1) as u64,
        ),
{
}

/// The store model after `n` serialized increments of one key.
pub open spec fn store_after_increments(
    m: Map<Seq<char>, StoreValueV>,
    key: Seq<char>,
    n: nat,
) -> Map<Seq<char>, StoreValueV>
    decreases n,
{
    if n == 0 {
        m
    } else {
        store_after_mutate(store_after_increments(m, key, (n - 1) as nat), key, MutateOpV::Increment)
    }
}

/// Serialized read-modify-write of one key loses no update: while the
/// counter stays below its ceiling, every one of `n` increments applies
/// cleanly to exactly the value its predecessor left, the counter ends
/// exactly `n` above where it started, and no other key moves.
pub proof fn lemma_increments_lose_no_update(m: Map<Seq<char>, StoreValueV>, key: Seq<char>, n: nat)
    requires
        counter_base(m, key) is Some,
        counter_base(m, key)->Some_0 + n <= u64::MAX,
    ensures
        counter_base(store_after_increments(m, key, n), key) == Some(
            (counter_base(m, key)->Some_0 + n) as u64,
        ),
        n > 0 ==> mutate_ok(store_after_increments(m, key, (n - 1) as nat), key, MutateOpV::Increment),
        forall|other: Seq<char>|
            other != key ==> (#[trigger] store_after_increments(m, key, n).contains_key(other))
                == m.contains_key(other),
        forall|other: Seq<char>|
            other != key && m.contains_key(other) ==> (#[trigger] store_after_increments(
                m,
                key,
                n,
            )[other]) == m[other],
    decreases n,
{
    if n > 0 {
        lemma_increments_lose_no_update(m, key, (n - 1) as nat);
    }
}

/// A mutation of one key leaves every other key exactly as it was.
pub proof fn lemma_mutate_frames_other_keys(
    m: Map<Seq<char>, StoreValueV>,
    key: Seq<char>,
    op: MutateOpV,
    other: Seq<char>,
)
    requires
        other != key,
    ensures
        store_after_mutate(m, key, op).contains_key(other) == m.contains_key(other),
        m.contains_key(other) ==> store_after_mutate(m, key, op)[other] == m[other],
{
}

} // verus!
