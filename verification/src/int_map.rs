//! A map from small integers to values, kept as a vector of optional slots.
use vstd::prelude::*;

verus! {

/// A map from `usize` keys to values, stored in one slot per key.
pub struct IntMap<T> {
    data: Vec<Option<T>>,
}

impl<T> View for IntMap<T> {
    type V = Seq<Option<T>>;

    /// The slots, from key zero on, each with its value if it is filled.
    closed spec fn view(&self) -> Seq<Option<T>> {
        self.data@
    }
}

/// What is stored under a key, if anything. There is nothing past the last slot.
pub open spec fn value_at<T>(slots: Seq<Option<T>>, index: usize) -> Option<T> {
    if index < slots.len() {
        slots[index as int]
    } else {
        None
    }
}

/// The slots once a value was stored under a key. There are as many as before, or
/// as many more empty ones as it takes to have a slot for the key.
pub open spec fn stored<T>(slots: Seq<Option<T>>, index: usize, value: T) -> Seq<Option<T>> {
    Seq::new(
        if slots.len() > index {
            slots.len()
        } else {
            (index + 1) as nat
        },
        |i: int|
            if i == index {
                Some(value)
            } else if i < slots.len() {
                slots[i]
            } else {
                None
            },
    )
}

/// The slots once the value under a key was taken out.
pub open spec fn cleared<T>(slots: Seq<Option<T>>, index: usize) -> Seq<Option<T>> {
    if index < slots.len() {
        slots.update(index as int, None)
    } else {
        slots
    }
}

/// Storing a value fills its slot, adds no slot that is not needed for it, leaves the
/// other slots as they are, and adds empty ones only.
pub proof fn storing_fills_one_slot<T>(slots: Seq<Option<T>>, index: usize, value: T)
    ensures
        stored(slots, index, value).len() == (if index < slots.len() {
            slots.len() as int
        } else {
            index + 1
        }),
        stored(slots, index, value)[index as int] == Some(value),
        forall|i: int|
            0 <= i < slots.len() && i != index ==> #[trigger] stored(slots, index, value)[i]
                == slots[i],
        forall|i: int|
            slots.len() <= i < index ==> (#[trigger] stored(slots, index, value)[i]) is None,
{
}

/// Taking a value gives what is in its slot, empties that slot, leaves the other slots
/// as they are, and neither adds nor removes any.
pub proof fn taking_empties_one_slot<T>(slots: Seq<Option<T>>, index: usize)
    ensures
        cleared(slots, index).len() == slots.len(),
        index < slots.len() ==> value_at(slots, index) == slots[index as int],
        index < slots.len() ==> cleared(slots, index)[index as int] is None,
        index >= slots.len() ==> value_at(slots, index) is None,
        forall|i: int|
            0 <= i < slots.len() && i != index ==> #[trigger] cleared(slots, index)[i] == slots[i],
{
}

/// A value that was stored is the one taken out, once.
pub proof fn stored_value_is_taken_once<T>(slots: Seq<Option<T>>, index: usize, value: T)
    ensures
        value_at(stored(slots, index, value), index) == Some(value),
        value_at(cleared(stored(slots, index, value), index), index) == None::<T>,
{
}

/// Storing or taking one value leaves the values under other keys alone.
pub proof fn other_keys_are_left_alone<T>(
    slots: Seq<Option<T>>,
    index: usize,
    value: T,
    other: usize,
)
    requires
        other != index,
    ensures
        value_at(stored(slots, index, value), other) == value_at(slots, other),
        value_at(cleared(slots, index), other) == value_at(slots, other),
{
}

/// Values stored under different keys can be stored in either order.
pub proof fn stores_under_different_keys_commute<T>(
    slots: Seq<Option<T>>,
    first: usize,
    a: T,
    second: usize,
    b: T,
)
    requires
        first != second,
    ensures
        stored(stored(slots, first, a), second, b) == stored(stored(slots, second, b), first, a),
{
}

/// Of two values stored under one key, the second is all that counts.
pub proof fn last_store_wins<T>(slots: Seq<Option<T>>, index: usize, a: T, b: T)
    ensures
        stored(stored(slots, index, a), index, b) == stored(slots, index, b),
{
}

/// A second take under the same key gives nothing and leaves the map as it is.
pub proof fn second_take_changes_nothing<T>(slots: Seq<Option<T>>, index: usize)
    ensures
        value_at(cleared(slots, index), index) == None::<T>,
        cleared(cleared(slots, index), index) == cleared(slots, index),
{
}

/// Taking a value changes the map only where there is one to be taken.
pub proof fn take_of_nothing_changes_nothing<T>(slots: Seq<Option<T>>, index: usize)
    requires
        value_at(slots, index) is None,
    ensures
        cleared(slots, index) == slots,
{
}

impl<T> IntMap<T> {
    /// How many slots there are.
    pub open spec fn slots(&self) -> nat {
        self@.len()
    }

    /// An empty map.
    pub fn new() -> (map: Self)
        ensures
            map@ == Seq::<Option<T>>::empty(),
            map.slots() == 0,
    {
        Self { data: Vec::new() }
    }

    /// Takes the value stored under `index` out of the map, if there is one.
    pub fn take(&mut self, index: usize) -> (value: Option<T>)
        ensures
            value == value_at(old(self)@, index),
            final(self)@ == cleared(old(self)@, index),
            index < old(self)@.len() ==> value == old(self)@[index as int]
                && final(self)@[index as int] is None,
            index >= old(self)@.len() ==> value is None && final(self)@ == old(self)@,
            forall|i: int|
                0 <= i < old(self)@.len() && i != index ==> final(self)@[i] == old(self)@[i],
            final(self).slots() == old(self).slots(),
    {
        if index < self.data.len() {
            self.data[index].take()
        } else {
            None
        }
    }

    /// Stores `value` under `index`, dropping the value stored there before.
    pub fn insert(&mut self, index: usize, value: T)
        requires
            index < usize::MAX,
        ensures
            final(self)@ == stored(old(self)@, index, value),
            final(self)@[index as int] == Some(value),
            forall|i: int|
                0 <= i < old(self)@.len() && i != index ==> final(self)@[i] == old(self)@[i],
            forall|i: int|
                old(self)@.len() <= i < final(self)@.len() && i != index
                    ==> final(self)@[i] is None,
            final(self).slots() == (if old(self).slots() > index {
                old(self).slots()
            } else {
                (index + 1) as nat
            }),
    {
        while self.data.len() <= index
            invariant
                index < usize::MAX,
                self@.len() >= old(self)@.len(),
                self@.len() > old(self)@.len() ==> self@.len() <= index + 1,
                forall|i: int| 0 <= i < old(self)@.len() ==> self@[i] == old(self)@[i],
                forall|i: int| old(self)@.len() <= i < self@.len() ==> self@[i] is None,
            decreases index + 1 - self.data.len(),
        {
            self.data.push(None);
        }
        self.data[index] = Some(value);
        assert(self@ =~= stored(old(self)@, index, value));
    }
}

} // verus!
