use vstd::prelude::*;
use vstd::std_specs::cmp::PartialEqSpec;

verus! {

/// How many undo steps a history keeps by default.
pub const DEFAULT_HISTORY_LIMIT: usize = 100;

/// An undo/redo history of values of `T`: the states before the present, the present,
/// and the states that undo moved away from, the most recent last in both lists.
#[derive(Debug, Clone)]
pub struct History<T> {
    past: Vec<T>,
    present: T,
    future: Vec<T>,
    limit: usize,
}

/// `past` after recording `previous`: the oldest state is dropped when `past` is full, and
/// nothing is kept when the limit is zero.
pub open spec fn recorded<T>(past: Seq<T>, previous: T, limit: nat) -> Seq<T> {
    if limit == 0 {
        past
    } else if past.len() == limit {
        past.subrange(1, past.len() as int).push(previous)
    } else {
        past.push(previous)
    }
}

/// The history after one undo: the latest past state becomes the present and the present
/// goes to the future; nothing changes without a past.
pub open spec fn undo_step<T>(past: Seq<T>, present: T, future: Seq<T>) -> (Seq<T>, T, Seq<T>) {
    if past.len() == 0 {
        (past, present, future)
    } else {
        (past.drop_last(), past.last(), future.push(present))
    }
}

/// The history after one redo: the latest future state becomes the present and the present
/// goes to the past; nothing changes without a future.
pub open spec fn redo_step<T>(past: Seq<T>, present: T, future: Seq<T>) -> (Seq<T>, T, Seq<T>) {
    if future.len() == 0 {
        (past, present, future)
    } else {
        (past.push(present), future.last(), future.drop_last())
    }
}

/// Redo takes back an undo that moved.
pub proof fn lemma_redo_undoes_undo<T>(past: Seq<T>, present: T, future: Seq<T>)
    requires
        past.len() > 0,
    ensures
        ({
            let u = undo_step(past, present, future);
            redo_step(u.0, u.1, u.2) == (past, present, future)
        }),
{
    let u = undo_step(past, present, future);
    assert(u.0.push(u.1) =~= past);
    assert(u.2.drop_last() =~= future);
}

/// Undo takes back a redo that moved.
pub proof fn lemma_undo_undoes_redo<T>(past: Seq<T>, present: T, future: Seq<T>)
    requires
        future.len() > 0,
    ensures
        ({
            let r = redo_step(past, present, future);
            undo_step(r.0, r.1, r.2) == (past, present, future)
        }),
{
    let r = redo_step(past, present, future);
    assert(r.0.drop_last() =~= past);
    assert(r.2.push(r.1) =~= future);
}

/// After a recorded commit, undo brings back the committed baseline and keeps the edited
/// state for redo, and nothing is left to redo beyond it.
pub proof fn lemma_undo_after_commit<T>(past: Seq<T>, present: T, previous: T, limit: nat)
    requires
        limit > 0,
        past.len() <= limit,
    ensures
        ({
            let u = undo_step(recorded(past, previous, limit), present, Seq::<T>::empty());
            &&& u.1 == previous
            &&& u.2 == seq![present]
        }),
        recorded(past, previous, limit).len() <= limit,
{
    let r = recorded(past, previous, limit);
    assert(r.last() == previous);
    assert(Seq::<T>::empty().push(present) =~= seq![present]);
}

impl<T: Clone + PartialEq> History<T> {
    pub closed spec fn spec_past(&self) -> Seq<T> {
        self.past@
    }

    pub closed spec fn spec_present(&self) -> T {
        self.present
    }

    pub closed spec fn spec_future(&self) -> Seq<T> {
        self.future@
    }

    pub closed spec fn spec_limit(&self) -> nat {
        self.limit as nat
    }

    /// The past and the future together never hold more states than the limit.
    pub open spec fn wf(&self) -> bool {
        self.spec_past().len() + self.spec_future().len() <= self.spec_limit()
    }

    pub fn new(initial: T) -> (history: History<T>)
        ensures
            history.wf(),
            history.spec_past() == Seq::<T>::empty(),
            history.spec_present() == initial,
            history.spec_future() == Seq::<T>::empty(),
            history.spec_limit() == DEFAULT_HISTORY_LIMIT,
    {
        History { past: Vec::new(), present: initial, future: Vec::new(), limit: DEFAULT_HISTORY_LIMIT }
    }

    pub fn current(&self) -> (value: &T)
        ensures
            *value == self.spec_present(),
    {
        &self.present
    }

    /// Gives the present state for editing in place; the past and the future stay as they are.
    pub fn edit(&mut self) -> (value: &mut T)
        ensures
            *value == old(self).spec_present(),
            final(self).spec_present() == *final(value),
            final(self).spec_past() == old(self).spec_past(),
            final(self).spec_future() == old(self).spec_future(),
            final(self).spec_limit() == old(self).spec_limit(),
            final(self).wf() == old(self).wf(),
    {
        &mut self.present
    }

    /// Records `previous` as the state before the present edit, unless it equals the present;
    /// returns whether it was recorded. Recording clears the future.
    pub fn commit_from(&mut self, previous: T) -> (changed: bool)
        requires
            old(self).wf(),
        ensures
            final(self).wf(),
            T::obeys_eq_spec() ==> changed == !previous.eq_spec(&old(self).spec_present()),
            final(self).spec_present() == old(self).spec_present(),
            final(self).spec_limit() == old(self).spec_limit(),
            changed ==> final(self).spec_past() == recorded(
                old(self).spec_past(),
                previous,
                old(self).spec_limit(),
            ) && final(self).spec_future() == Seq::<T>::empty(),
            !changed ==> final(self).spec_past() == old(self).spec_past() && final(self).spec_future()
                == old(self).spec_future(),
    {
        if previous == self.present {
            return false;
        }
        self.record(previous);
        true
    }

    pub fn can_undo(&self) -> (r: bool)
        ensures
            r == (self.spec_past().len() > 0),
    {
        self.past.len() > 0
    }

    pub fn can_redo(&self) -> (r: bool)
        ensures
            r == (self.spec_future().len() > 0),
    {
        self.future.len() > 0
    }

    /// Steps back: the most recent past state becomes the present and the present moves to
    /// the future. Returns `false`, changing nothing, when there is no past.
    pub fn undo(&mut self) -> (moved: bool)
        requires
            old(self).wf(),
        ensures
            final(self).wf(),
            final(self).spec_limit() == old(self).spec_limit(),
            moved == (old(self).spec_past().len() > 0),
            (final(self).spec_past(), final(self).spec_present(), final(self).spec_future())
                == undo_step(old(self).spec_past(), old(self).spec_present(), old(self).spec_future()),
    {
        match self.past.pop() {
            None => false,
            Some(previous) => {
                let mut current = previous;
                std::mem::swap(&mut self.present, &mut current);
                self.future.push(current);
                true
            },
        }
    }

    /// Steps forward again: the most recent future state becomes the present and the present
    /// moves to the past. Returns `false`, changing nothing, when there is no future.
    pub fn redo(&mut self) -> (moved: bool)
        requires
            old(self).wf(),
        ensures
            final(self).wf(),
            final(self).spec_limit() == old(self).spec_limit(),
            moved == (old(self).spec_future().len() > 0),
            (final(self).spec_past(), final(self).spec_present(), final(self).spec_future())
                == redo_step(old(self).spec_past(), old(self).spec_present(), old(self).spec_future()),
    {
        match self.future.pop() {
            None => false,
            Some(next) => {
                let mut current = next;
                std::mem::swap(&mut self.present, &mut current);
                self.past.push(current);
                true
            },
        }
    }

    /// Starts over from `initial` with no past and no future.
    pub fn reset(&mut self, initial: T)
        ensures
            final(self).wf(),
            final(self).spec_past() == Seq::<T>::empty(),
            final(self).spec_present() == initial,
            final(self).spec_future() == Seq::<T>::empty(),
            final(self).spec_limit() == old(self).spec_limit(),
    {
        self.past.clear();
        self.future.clear();
        self.present = initial;
    }

    fn record(&mut self, previous: T)
        requires
            old(self).wf(),
        ensures
            final(self).wf(),
            final(self).spec_present() == old(self).spec_present(),
            final(self).spec_limit() == old(self).spec_limit(),
            final(self).spec_past() == recorded(old(self).spec_past(), previous, old(self).spec_limit()),
            final(self).spec_future() == Seq::<T>::empty(),
    {
        if self.limit > 0 {
            if self.past.len() == self.limit {
                self.past.remove(0);
            }
            self.past.push(previous);
        }
        self.future.clear();
    }
}


/// The undo stack is bounded: a well-formed history (every history that `new`, `edit`,
/// `commit_from`, `undo`, `redo` and `reset` produce) keeps at most `limit` states to undo and
/// at most `limit` to redo, so at most `limit` undos in a row succeed.
pub proof fn lemma_undo_stack_is_bounded<T: Clone + PartialEq>(history: History<T>)
    requires
        history.wf(),
    ensures
        history.spec_past().len() <= history.spec_limit(),
        history.spec_future().len() <= history.spec_limit(),
{
}

/// Recording into a full past drops the oldest state and keeps the newest: the past never
/// grows beyond the limit, and the recorded state is the one that undo brings back first.
pub proof fn lemma_recording_keeps_the_newest<T>(past: Seq<T>, previous: T, limit: nat)
    requires
        past.len() <= limit,
        limit > 0,
    ensures
        recorded(past, previous, limit).len() <= limit,
        recorded(past, previous, limit).last() == previous,
        past.len() == limit ==> recorded(past, previous, limit) == past.subrange(1, past.len() as int).push(previous),
        past.len() < limit ==> recorded(past, previous, limit) == past.push(previous),
{
}

} // verus!
