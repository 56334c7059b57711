//! Runs of optional slots that end in an empty one.
//!
//! A native callee that takes an array without a length reads slots until it
//! meets the empty one. The types here keep that last, empty slot in place:
//! a borrowed view ([`NullTerminatedSlice`]), a borrowed view for writing
//! ([`NullTerminatedSliceMut`]) and an owned buffer ([`NullTerminatedVec`]).
//!
//! Only the last slot is looked at when a run is taken. A borrowed run
//! cannot grow, so one that does not end in an empty slot is refused; an
//! owned run gets the empty slot put behind it. A run with an empty slot
//! further to the front is accepted, and it ends there for every reader:
//! the slots that a view hands out, its length and its iteration stop at
//! the first empty slot, as the native callee does. Nothing written through
//! a view makes a slot empty.

use vstd::prelude::*;

verus! {

/// The run has a last slot, and that slot is empty.
pub open spec fn is_terminated<T>(slots: Seq<Option<T>>) -> bool {
    slots.len() > 0 && slots.last() is None
}

/// No slot is empty.
pub open spec fn is_dense<T>(slots: Seq<Option<T>>) -> bool {
    forall|i: int| 0 <= i < slots.len() ==> (#[trigger] slots[i]) is Some
}

/// How many slots stand in front of the first empty one.
pub open spec fn present_len<T>(slots: Seq<Option<T>>) -> nat
    decreases slots.len(),
{
    if slots.len() == 0 || slots[0] is None {
        0
    } else {
        1 + present_len(slots.skip(1))
    }
}

/// The values in front of the first empty slot, in order.
pub open spec fn present<T>(slots: Seq<Option<T>>) -> Seq<T> {
    Seq::new(present_len(slots), |i: int| slots[i]->0)
}

/// Each value in a slot of its own.
pub open spec fn wrap<T>(values: Seq<T>) -> Seq<Option<T>> {
    Seq::new(values.len(), |i: int| Some(values[i]))
}

/// `present_len` is the index of the first empty slot, or the length where
/// there is none.
pub proof fn lemma_present_len<T>(slots: Seq<Option<T>>)
    ensures
        present_len(slots) <= slots.len(),
        forall|i: int| 0 <= i < present_len(slots) ==> (#[trigger] slots[i]) is Some,
        present_len(slots) < slots.len() ==> slots[present_len(slots) as int] is None,
    decreases slots.len(),
{
    if slots.len() == 0 || slots[0] is None {
    } else {
        let rest = slots.skip(1);
        lemma_present_len(rest);
        assert forall|i: int| 0 <= i < present_len(slots) implies (#[trigger] slots[i]) is Some by {
            if i > 0 {
                assert(slots[i] == rest[i - 1]);
            }
        }
        if present_len(slots) < slots.len() {
            assert(slots[present_len(slots) as int] == rest[present_len(rest) as int]);
        }
    }
}

/// An index whose slot is empty, with no empty slot in front of it, is
/// `present_len`.
pub proof fn lemma_first_empty<T>(slots: Seq<Option<T>>, k: int)
    requires
        0 <= k <= slots.len(),
        forall|i: int| 0 <= i < k ==> (#[trigger] slots[i]) is Some,
        k < slots.len() ==> slots[k] is None,
    ensures
        present_len(slots) == k,
        present(slots) =~= Seq::new(k as nat, |i: int| slots[i]->0),
{
    lemma_present_len(slots);
    let n = present_len(slots) as int;
    if n < k {
        assert(slots[n] is Some);
    } else if k < n {
        assert(slots[k] is Some);
    }
}

/// Reading stops at the first empty slot: what follows it does not count.
pub proof fn lemma_present_prefix<T>(front: Seq<Option<T>>, back: Seq<Option<T>>)
    ensures
        present(front + seq![None] + back) == present(front),
{
    lemma_present_len(front);
    let k = present_len(front) as int;
    let all = front + seq![None] + back;
    assert forall|i: int| 0 <= i < k implies (#[trigger] all[i]) is Some by {
        assert(all[i] == front[i]);
    }
    if k < front.len() {
        assert(all[k] == front[k]);
    } else {
        assert(all[k] == None::<T>);
    }
    lemma_first_empty(all, k);
    assert forall|i: int| 0 <= i < k implies all[i] == front[i] by {}
    assert(present(all) =~= present(front));
}

/// The sentinel adds nothing to what is read.
pub proof fn lemma_present_sentinel<T>(slots: Seq<Option<T>>)
    ensures
        present(slots.push(None)) == present(slots),
{
    assert(slots.push(None) =~= slots + seq![None] + Seq::<Option<T>>::empty());
    lemma_present_prefix(slots, Seq::empty());
}

/// Wrapping values and reading them back gives the same values, in the
/// same order and number.
pub proof fn lemma_present_wrap<T>(values: Seq<T>)
    ensures
        is_dense(wrap(values)),
        present(wrap(values)) == values,
        present(wrap(values).push(None)) == values,
{
    lemma_first_empty(wrap(values), values.len() as int);
    assert(present(wrap(values)) =~= values);
    lemma_present_sentinel(wrap(values));
}

/// Of a run without an empty slot every slot is read.
pub proof fn lemma_present_dense<T>(slots: Seq<Option<T>>)
    requires
        is_dense(slots),
    ensures
        present(slots).len() == slots.len(),
        wrap(present(slots)) == slots,
{
    lemma_first_empty(slots, slots.len() as int);
    assert(wrap(present(slots)) =~= slots);
}

/// The slots in front of the first empty one.
pub open spec fn logical<T>(slots: Seq<Option<T>>) -> Seq<Option<T>> {
    slots.take(present_len(slots) as int)
}

/// The slots in front of the first empty one are the values that are read,
/// each in its slot: none of them is empty, and cutting the run there
/// changes nothing for a reader.
pub proof fn lemma_logical<T>(slots: Seq<Option<T>>)
    ensures
        is_dense(logical(slots)),
        logical(slots) == wrap(present(slots)),
        present(logical(slots)) == present(slots),
        is_dense(slots) ==> logical(slots) == slots,
{
    lemma_present_len(slots);
    assert(logical(slots) =~= wrap(present(slots)));
    lemma_present_wrap(present(slots));
    if is_dense(slots) {
        lemma_present_dense(slots);
        assert(logical(slots) =~= slots);
    }
}

/// The run with a sentinel behind it, unless its last slot is empty
/// already.
pub open spec fn adopted<T>(slots: Seq<Option<T>>) -> Seq<Option<T>> {
    if is_terminated(slots) {
        slots
    } else {
        slots.push(None)
    }
}

/// Adopting a run gives a run that ends in an empty slot, and adopting
/// that once more adds nothing.
pub proof fn lemma_adopted_once<T>(slots: Seq<Option<T>>)
    ensures
        is_terminated(adopted(slots)),
        adopted(adopted(slots)) == adopted(slots),
        is_terminated(slots) ==> adopted(slots).len() == slots.len(),
{
}

/// A borrowed run of slots whose last slot is empty.
///
/// Its view is the run without that last slot.
pub struct NullTerminatedSlice<'a, T> {
    inner: &'a [Option<T>],
}

impl<'a, T> View for NullTerminatedSlice<'a, T> {
    type V = Seq<Option<T>>;

    closed spec fn view(&self) -> Seq<Option<T>> {
        self.inner@.drop_last()
    }
}

impl<'a, T> NullTerminatedSlice<'a, T> {
    #[verifier::type_invariant]
    spec fn terminated(self) -> bool {
        is_terminated(self.inner@)
    }

    /// The whole run, sentinel included.
    pub open spec fn raw(self) -> Seq<Option<T>> {
        self@.push(None)
    }

    /// The values that reading up to the first empty slot meets.
    pub open spec fn values(self) -> Seq<T> {
        present(self@)
    }

    /// The slots in front of the first empty one: the values, each in its
    /// slot.
    pub open spec fn logical(self) -> Seq<Option<T>> {
        logical(self@)
    }

    /// A view of `slice`, if its last slot is empty. Slots further to the
    /// front are not looked at.
    pub fn from_slice(slice: &'a [Option<T>]) -> (view: Option<Self>)
        ensures
            view is Some <==> is_terminated(slice@),
            view matches Some(v) ==> v.raw() == slice@ && v@ == slice@.drop_last(),
    {
        let terminated = match slice.last() {
            Some(slot) => slot.is_none(),
            None => false,
        };
        if terminated {
            assert(slice@.drop_last().push(None) =~= slice@);
            Some(NullTerminatedSlice { inner: slice })
        } else {
            None
        }
    }

    /// A view of `slice`, whose last slot the caller knows to be empty.
    pub fn from_slice_unchecked(slice: &'a [Option<T>]) -> (view: Self)
        requires
            is_terminated(slice@),
        ensures
            view.raw() == slice@,
            view@ == slice@.drop_last(),
    {
        assert(slice@.drop_last().push(None) =~= slice@);
        NullTerminatedSlice { inner: slice }
    }

    /// A view of `slice` for writing, if its last slot is empty.
    pub fn from_slice_mut(slice: &'a mut [Option<T>]) -> (view: Option<
        NullTerminatedSliceMut<'a, T>,
    >)
        ensures
            view is Some <==> is_terminated(old(slice)@),
            view matches Some(v) ==> v.raw() == old(slice)@ && v@ == old(slice)@.drop_last(),
            view is None ==> final(slice)@ == old(slice)@,
    {
        let terminated = match slice.last() {
            Some(slot) => slot.is_none(),
            None => false,
        };
        if terminated {
            Some(Self::from_slice_mut_unchecked(slice))
        } else {
            None
        }
    }

    /// A view of `slice` for writing, whose last slot the caller knows to
    /// be empty.
    pub fn from_slice_mut_unchecked(slice: &'a mut [Option<T>]) -> (view: NullTerminatedSliceMut<
        'a,
        T,
    >)
        requires
            is_terminated(old(slice)@),
        ensures
            view.raw() == old(slice)@,
            view@ == old(slice)@.drop_last(),
    {
        assert(slice@.drop_last().push(None) =~= slice@);
        NullTerminatedSliceMut { inner: slice }
    }

    /// The slots in front of the first empty one. None of them is empty:
    /// they are the values that are read, each in its slot.
    pub fn as_slice(&self) -> (slots: &'a [Option<T>])
        ensures
            slots@ == self@.take(present_len(self@) as int),
            slots@ == self.logical(),
            slots@ == wrap(self.values()),
            is_dense(slots@),
            is_dense(self@) ==> slots@ == self@,
    {
        proof {
            use_type_invariant(self);
        }
        let mut end: usize = 0;
        while self.inner[end].is_some()
            invariant
                is_terminated(self.inner@),
                end < self.inner@.len(),
                forall|j: int| 0 <= j < end ==> (#[trigger] self.inner@[j]) is Some,
            decreases self.inner@.len() - end,
        {
            end += 1;
        }
        proof {
            assert forall|j: int| 0 <= j < end implies (#[trigger] self@[j]) is Some by {
                assert(self@[j] == self.inner@[j]);
            }
            if end < self@.len() {
                assert(self@[end as int] == self.inner@[end as int]);
            }
            lemma_first_empty(self@, end as int);
            lemma_logical(self@);
            assert(self.inner@.subrange(0, end as int) =~= self@.take(end as int));
        }
        &self.inner[0..end]
    }

    /// The same view once more.
    pub fn as_ref(&self) -> (view: NullTerminatedSlice<'a, T>)
        ensures
            view@ == self@,
    {
        proof {
            use_type_invariant(self);
        }
        NullTerminatedSlice { inner: self.inner }
    }

    /// A cursor at the first slot.
    pub fn iter(&self) -> (cursor: Iter<'a, T>)
        ensures
            cursor@ == self.values(),
    {
        proof {
            use_type_invariant(self);
            assert(self.inner@ =~= self@.push(None));
            lemma_present_sentinel(self@);
        }
        Iter { rest: self.inner }
    }
}

impl<'s, 'a, U> NullTerminatedSlice<'s, &'a U> {
    /// The whole run, sentinel included, as it lies in memory.
    ///
    /// A slot that holds a reference is one address wide, and the empty
    /// slot is the zero address. So the address of the first slot of this
    /// run is the array that a native callee expects: one address for each
    /// slot of the view, then zero.
    pub fn as_ptr(&self) -> (run: &'s [Option<&'a U>])
        ensures
            run@ == self.raw(),
    {
        proof {
            use_type_invariant(self);
            assert(self.inner@ =~= self@.push(None));
        }
        self.inner
    }
}

impl<'a, T> core::ops::Deref for NullTerminatedSlice<'a, T> {
    type Target = [Option<T>];

    /// The slots in front of the first empty one, as [`Self::as_slice`]
    /// gives them.
    fn deref(&self) -> (slots: &[Option<T>])
        ensures
            slots@ == self@.take(present_len(self@) as int),
            slots@ == wrap(self.values()),
            is_dense(slots@),
            is_dense(self@) ==> slots@ == self@,
    {
        self.as_slice()
    }
}

/// A borrowed run of slots whose last slot is empty, for writing.
///
/// Its view is the run without that last slot. The one way to write is
/// [`Self::set`], which puts a value into a slot in front of the sentinel:
/// the sentinel stays, and no slot becomes empty.
pub struct NullTerminatedSliceMut<'a, T> {
    inner: &'a mut [Option<T>],
}

impl<'a, T> View for NullTerminatedSliceMut<'a, T> {
    type V = Seq<Option<T>>;

    closed spec fn view(&self) -> Seq<Option<T>> {
        self.inner@.drop_last()
    }
}

impl<'a, T> NullTerminatedSliceMut<'a, T> {
    #[verifier::type_invariant]
    spec fn terminated(self) -> bool {
        is_terminated(self.inner@)
    }

    /// The whole run, sentinel included.
    pub open spec fn raw(self) -> Seq<Option<T>> {
        self@.push(None)
    }

    /// The values that reading up to the first empty slot meets.
    pub open spec fn values(self) -> Seq<T> {
        present(self@)
    }

    /// Puts `value` into the slot number `i`. The other slots stay, the
    /// sentinel among them, so a run without an empty slot in front of the
    /// sentinel stays one.
    pub fn set(&mut self, i: usize, value: T)
        requires
            i < old(self)@.len(),
        ensures
            final(self)@ == old(self)@.update(i as int, Some(value)),
            final(self).raw() == old(self).raw().update(i as int, Some(value)),
            is_dense(old(self)@) ==> is_dense(final(self)@),
    {
        proof {
            use_type_invariant(&*self);
        }
        self.inner[i] = Some(value);
        proof {
            assert(self@ =~= old(self)@.update(i as int, Some(value)));
            assert(self.raw() =~= old(self).raw().update(i as int, Some(value)));
            if is_dense(old(self)@) {
                assert forall|j: int| 0 <= j < self@.len() implies (#[trigger] self@[j]) is Some by {
                    if j != i {
                        assert(self@[j] == old(self)@[j]);
                    }
                }
            }
        }
    }

    /// A view of the run as it now is, for reading.
    pub fn as_ref(&self) -> (view: NullTerminatedSlice<'_, T>)
        ensures
            view@ == self@,
    {
        proof {
            use_type_invariant(self);
        }
        NullTerminatedSlice { inner: &*self.inner }
    }
}

/// A cursor over the values of a run. It stops at the first empty slot.
///
/// Its view is the values it has yet to give.
pub struct Iter<'a, T> {
    rest: &'a [Option<T>],
}

impl<'a, T> View for Iter<'a, T> {
    type V = Seq<T>;

    closed spec fn view(&self) -> Seq<T> {
        present(self.rest@)
    }
}

impl<'a, T> Iter<'a, T> {
    /// The next value, or nothing at the first empty slot and ever after.
    pub fn next(&mut self) -> (item: Option<&'a T>)
        ensures
            old(self)@.len() == 0 ==> item is None && final(self)@ == old(self)@,
            old(self)@.len() > 0 ==> item == Some(&old(self)@[0]) && final(self)@ == old(
                self,
            )@.skip(1),
    {
        let n = self.rest.len();
        if n == 0 {
            return None;
        }
        match &self.rest[0] {
            Some(value) => {
                proof {
                    let all = self.rest@;
                    lemma_present_len(all.skip(1));
                    assert forall|i: int| 0 <= i < present_len(all.skip(1)) implies all.skip(1)[i]
                        == all[i + 1] by {}
                    assert(present(all.skip(1)) =~= present(all).skip(1));
                    assert(all.subrange(1, n as int) =~= all.skip(1));
                }
                self.rest = &self.rest[1..n];
                Some(value)
            },
            None => None,
        }
    }
}

/// An owned run of slots whose last slot is empty.
///
/// Its view is the run without that last slot. Nothing changes the run
/// once it is made.
pub struct NullTerminatedVec<T> {
    inner: Vec<Option<T>>,
}

impl<T> View for NullTerminatedVec<T> {
    type V = Seq<Option<T>>;

    closed spec fn view(&self) -> Seq<Option<T>> {
        self.inner@.drop_last()
    }
}

impl<T> NullTerminatedVec<T> {
    #[verifier::type_invariant]
    spec fn terminated(self) -> bool {
        is_terminated(self.inner@)
    }

    /// The whole run, sentinel included.
    pub open spec fn raw(self) -> Seq<Option<T>> {
        self@.push(None)
    }

    /// The values that reading up to the first empty slot meets.
    pub open spec fn values(self) -> Seq<T> {
        present(self@)
    }

    /// The slots in front of the first empty one: the values, each in its
    /// slot.
    pub open spec fn logical(self) -> Seq<Option<T>> {
        logical(self@)
    }

    /// A run of the given values, each in a slot of its own, and the
    /// sentinel behind them.
    pub fn new(values: Vec<T>) -> (buffer: Self)
        ensures
            buffer@ == wrap(values@),
            buffer.raw() == wrap(values@).push(None),
            is_dense(buffer@),
            buffer.values() == values@,
    {
        let ghost given = values@;
        let mut slots: Vec<Option<T>> = Vec::new();
        for value in source: values.into_iter()
            invariant
                source.seq() == given,
                slots@ =~= wrap(given.take(source.index())),
        {
            slots.push(Some(value));
        }
        slots.push(None);
        proof {
            assert(slots@.drop_last() =~= wrap(given));
            lemma_present_wrap(given);
        }
        NullTerminatedVec { inner: slots }
    }

    /// The given run, with a sentinel put behind it unless its last slot is
    /// empty already. Slots further to the front are not looked at.
    pub fn adopt(slots: Vec<Option<T>>) -> (buffer: Self)
        ensures
            buffer.raw() == adopted(slots@),
            buffer@ == if is_terminated(slots@) {
                slots@.drop_last()
            } else {
                slots@
            },
    {
        let mut slots = slots;
        let terminated = match slots.last() {
            Some(slot) => slot.is_none(),
            None => false,
        };
        if !terminated {
            slots.push(None);
        }
        assert(slots@.drop_last().push(None) =~= slots@);
        NullTerminatedVec { inner: slots }
    }

    /// The given run as an owned buffer. It is taken as [`Self::adopt`]
    /// takes it, with a sentinel put behind it unless its last slot is
    /// empty already, so no run is refused.
    pub fn from_vec(vec: Vec<Option<T>>) -> (buffer: Option<Self>)
        ensures
            buffer matches Some(b) && b.raw() == adopted(vec@) && b@ == (if is_terminated(vec@) {
                vec@.drop_last()
            } else {
                vec@
            }),
    {
        Some(Self::adopt(vec))
    }

    /// The given run as it is, whose last slot the caller knows to be
    /// empty.
    pub fn from_vec_unchecked(vec: Vec<Option<T>>) -> (buffer: Self)
        requires
            is_terminated(vec@),
        ensures
            buffer.raw() == vec@,
            buffer@ == vec@.drop_last(),
    {
        assert(vec@.drop_last().push(None) =~= vec@);
        NullTerminatedVec { inner: vec }
    }

    /// One slot for each item of `source`, in the order of `source`: the
    /// slot holds what `map` makes of a borrow of the item.
    pub fn project<'a, S, F: Fn(&'a S) -> T>(source: &'a [S], map: F) -> (buffer: Self)
        requires
            forall|i: int| 0 <= i < source@.len() ==> call_requires(map, (&#[trigger] source@[i],)),
        ensures
            buffer@.len() == source@.len(),
            forall|i: int|
                0 <= i < source@.len() ==> ((#[trigger] buffer@[i]) matches Some(projected)
                    && call_ensures(map, (&source@[i],), projected)),
            is_dense(buffer@),
            buffer.values().len() == source@.len(),
            forall|i: int|
                0 <= i < source@.len() ==> call_ensures(
                    map,
                    (&source@[i],),
                    #[trigger] buffer.values()[i],
                ),
    {
        let mut slots: Vec<Option<T>> = Vec::new();
        let mut i: usize = 0;
        while i < source.len()
            invariant
                i <= source@.len(),
                slots@.len() == i,
                forall|j: int|
                    0 <= j < source@.len() ==> call_requires(map, (&#[trigger] source@[j],)),
                forall|j: int|
                    0 <= j < i ==> ((#[trigger] slots@[j]) matches Some(projected) && call_ensures(
                        map,
                        (&source@[j],),
                        projected,
                    )),
            decreases source@.len() - i,
        {
            let projected = map(&source[i]);
            slots.push(Some(projected));
            i += 1;
        }
        let ghost filled = slots@;
        slots.push(None);
        proof {
            assert(slots@.drop_last() =~= filled);
            lemma_present_dense(filled);
        }
        NullTerminatedVec { inner: slots }
    }

    /// A view of this run.
    pub fn as_ref(&self) -> (view: NullTerminatedSlice<'_, T>)
        ensures
            view@ == self@,
            view.logical() == self.logical(),
    {
        proof {
            use_type_invariant(self);
        }
        NullTerminatedSlice { inner: self.inner.as_slice() }
    }
}

/// What can be handed on as a run that ends in an empty slot.
pub trait IntoRef<T>: Sized {
    /// The run, borrowed or owned.
    type Target: View<V = Seq<Option<T>>>;

    /// The slots, sentinel excluded, of the run that `into_ref` gives.
    spec fn slots(self) -> Seq<Option<T>>;

    /// The run.
    fn into_ref(self) -> (target: Self::Target)
        ensures
            target@ == self.slots(),
    ;
}

/// A view is handed on as it is.
impl<'a, T> IntoRef<T> for NullTerminatedSlice<'a, T> {
    type Target = NullTerminatedSlice<'a, T>;

    open spec fn slots(self) -> Seq<Option<T>> {
        self@
    }

    fn into_ref(self) -> (target: NullTerminatedSlice<'a, T>) {
        self
    }
}

/// Values are handed on in a run of their own, each in its slot.
impl<T> IntoRef<T> for Vec<T> {
    type Target = NullTerminatedVec<T>;

    open spec fn slots(self) -> Seq<Option<T>> {
        wrap(self@)
    }

    fn into_ref(self) -> (target: NullTerminatedVec<T>) {
        NullTerminatedVec::new(self)
    }
}

} // verus!
