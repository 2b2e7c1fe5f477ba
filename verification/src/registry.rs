//! The registry of commands that await their answering event.

use vstd::prelude::*;

verus! {

/// `after` is `before` without its element at index `at`, that element is
/// `item`, `predicate` accepted it, and it refused every element before it.
pub open spec fn takes_first_accepted<T, P: FnMut(&T) -> bool>(
    predicate: P,
    before: Seq<T>,
    after: Seq<T>,
    item: T,
    at: int,
) -> bool {
    &&& 0 <= at < before.len()
    &&& item == before[at]
    &&& after == before.remove(at)
    &&& call_ensures(predicate, (&before[at],), true)
    &&& forall|j: int| 0 <= j < at ==> call_ensures(predicate, (&#[trigger] before[j],), false)
}

/// Removes from `vec` the first element that `predicate` accepts and returns
/// it; leaves `vec` as it was and returns `None` when it accepts none.
pub fn remove_first<T, P>(vec: &mut Vec<T>, predicate: P) -> (removed: Option<T>) where
    P: FnMut(&T) -> bool,

    requires
        forall|i: int| 0 <= i < old(vec)@.len() ==> call_requires(predicate, (&old(vec)@[i],)),
    ensures
        removed is Some ==> exists|at: int| #[trigger]
            takes_first_accepted(predicate, old(vec)@, final(vec)@, removed->Some_0, at),
        removed is None ==> final(vec)@ == old(vec)@,
        removed is None ==> forall|j: int|
            0 <= j < old(vec)@.len() ==> call_ensures(
                predicate,
                (&#[trigger] old(vec)@[j],),
                false,
            ),
{
    let mut accepts = predicate;
    let mut i: usize = 0;
    while i < vec.len()
        invariant
            i <= vec@.len(),
            vec@ == old(vec)@,
            accepts == predicate,
            forall|k: int| 0 <= k < vec@.len() ==> call_requires(predicate, (&vec@[k],)),
            forall|j: int| 0 <= j < i ==> call_ensures(predicate, (&#[trigger] vec@[j],), false),
        decreases vec@.len() - i,
    {
        if accepts(&vec[i]) {
            let item = vec.remove(i);
            let removed = Some(item);
            assert(takes_first_accepted(predicate, old(vec)@, vec@, removed->Some_0, i as int));
            return removed;
        }
        i += 1;
    }
    None
}

/// A command that was handed to the controller and has not been answered.
#[derive(Debug, PartialEq, Eq)]
pub struct PendingEntry<R> {
    /// The opcode that the answering event will carry.
    pub opcode: u16,
    /// The single-use channel on which the sender of the command waits.
    pub reply: R,
}

/// `at` is the place in `pending` of the oldest entry that waits on `opcode`.
pub open spec fn is_oldest_waiting<R>(pending: Seq<PendingEntry<R>>, opcode: u16, at: int) -> bool {
    &&& 0 <= at < pending.len()
    &&& pending[at].opcode == opcode
    &&& forall|j: int| 0 <= j < at ==> (#[trigger] pending[j]).opcode != opcode
}

/// The place in `pending` of the oldest entry that waits on `opcode`, if any
/// entry does.
pub open spec fn oldest_waiting<R>(pending: Seq<PendingEntry<R>>, opcode: u16) -> Option<int> {
    if exists|at: int| is_oldest_waiting(pending, opcode, at) {
        Some(choose|at: int| is_oldest_waiting(pending, opcode, at))
    } else {
        None
    }
}

/// The oldest entry that waits on an opcode is found at one place only.
pub proof fn lemma_oldest_waiting_at<R>(pending: Seq<PendingEntry<R>>, opcode: u16, at: int)
    requires
        is_oldest_waiting(pending, opcode, at),
    ensures
        oldest_waiting(pending, opcode) == Some(at),
{
    let chosen = choose|k: int| is_oldest_waiting(pending, opcode, k);
    assert(is_oldest_waiting(pending, opcode, chosen));
    if chosen < at {
        assert(pending[chosen].opcode != opcode);
    } else if at < chosen {
        assert(pending[at].opcode != opcode);
    }
}

/// Nothing is found exactly when no entry waits on the opcode.
pub proof fn lemma_none_waiting<R>(pending: Seq<PendingEntry<R>>, opcode: u16)
    ensures
        oldest_waiting(pending, opcode) is None <==> forall|j: int|
            0 <= j < pending.len() ==> (#[trigger] pending[j]).opcode != opcode,
{
    if exists|j: int| 0 <= j < pending.len() && (#[trigger] pending[j]).opcode == opcode {
        let j = choose|j: int| 0 <= j < pending.len() && (#[trigger] pending[j]).opcode == opcode;
        lemma_some_waiting_before(pending, opcode, j);
    }
}

/// Where the entry at `upto` waits on `opcode`, an oldest such entry exists
/// at or before it.
proof fn lemma_some_waiting_before<R>(pending: Seq<PendingEntry<R>>, opcode: u16, upto: int)
    requires
        0 <= upto < pending.len(),
        pending[upto].opcode == opcode,
    ensures
        exists|at: int| at <= upto && is_oldest_waiting(pending, opcode, at),
    decreases upto,
{
    if exists|j: int| 0 <= j < upto && (#[trigger] pending[j]).opcode == opcode {
        let j = choose|j: int| 0 <= j < upto && (#[trigger] pending[j]).opcode == opcode;
        lemma_some_waiting_before(pending, opcode, j);
    } else {
        assert(is_oldest_waiting(pending, opcode, upto));
    }
}

/// The commands that await their answering event, oldest first.
///
/// Several entries may wait on one opcode; the oldest of them is answered
/// first.
pub struct PendingRegistry<R> {
    entries: Vec<PendingEntry<R>>,
}

impl<R> View for PendingRegistry<R> {
    type V = Seq<PendingEntry<R>>;

    closed spec fn view(&self) -> Seq<PendingEntry<R>> {
        self.entries@
    }
}

impl<R> PendingRegistry<R> {
    /// A registry in which nothing is pending.
    pub fn new() -> (registry: Self)
        ensures
            registry@ == Seq::<PendingEntry<R>>::empty(),
    {
        PendingRegistry { entries: Vec::new() }
    }

    /// The number of pending commands.
    pub fn len(&self) -> (n: usize)
        ensures
            n == self@.len(),
    {
        self.entries.len()
    }

    /// Whether no command is pending.
    pub fn is_empty(&self) -> (empty: bool)
        ensures
            empty == (self@.len() == 0),
    {
        self.entries.len() == 0
    }

    /// Appends `entry` behind all that are pending.
    pub fn register(&mut self, entry: PendingEntry<R>)
        ensures
            final(self)@ == old(self)@.push(entry),
    {
        self.entries.push(entry);
    }

    /// Takes out the oldest entry that waits on `opcode` and returns it.
    /// Where none does, the registry stays as it is.
    pub fn try_resolve(&mut self, opcode: u16) -> (resolved: Option<PendingEntry<R>>)
        ensures
            match oldest_waiting(old(self)@, opcode) {
                Some(at) => resolved == Some(old(self)@[at]) && final(self)@ == old(self)@.remove(
                    at,
                ),
                None => resolved is None && final(self)@ == old(self)@,
            },
    {
        let waits_on_opcode = |entry: &PendingEntry<R>| -> (hit: bool)
            ensures
                hit == (entry.opcode == opcode),
            { entry.opcode == opcode };
        let resolved = remove_first(&mut self.entries, waits_on_opcode);
        proof {
            if resolved is Some {
                let at = choose|at: int| #[trigger]
                    takes_first_accepted(
                        waits_on_opcode,
                        old(self)@,
                        self@,
                        resolved->Some_0,
                        at,
                    );
                assert(is_oldest_waiting(old(self)@, opcode, at));
                lemma_oldest_waiting_at(old(self)@, opcode, at);
            } else {
                lemma_none_waiting(old(self)@, opcode);
            }
        }
        resolved
    }
}

} // verus!
