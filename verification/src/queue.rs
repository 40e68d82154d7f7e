//! The store that a scheduler keeps its pending tasks in.

use vstd::prelude::*;

verus! {

/// The failure of a store to take an item, such as an exhausted region.
#[derive(Debug, Clone, Copy, PartialEq, Eq)]
pub struct StorageError;

/// An ordered store with append and indexed lookup.
///
/// The view of a store is the sequence of its items, oldest first. A store
/// that keeps its items in durable memory implements this trait over whatever
/// representation it has; the scheduler sees the sequence only.
pub trait VecStructure<T> {
    /// The items of the store in the order in which they were appended.
    spec fn view(&self) -> Seq<T>;

    /// Whether the store, as it stands, takes `item` at its tail. The answer
    /// is the store's own: it goes by what the store holds and by the room
    /// that its region has left.
    spec fn accepts(&self, item: T) -> bool;

    /// Appends `item`, where the store takes it. A store that does not take
    /// the item reports the failure, and its items stay as they were.
    fn push(&mut self, item: T) -> (result: Result<(), StorageError>)
        ensures
            result is Ok <==> old(self).accepts(item),
            result is Ok ==> final(self)@ == old(self)@.push(item),
            result is Err ==> final(self)@ == old(self)@,
    ;

    /// Reads the item at `index` without removing it.
    fn get(&self, index: usize) -> (item: Option<T>)
        ensures
            item == (if index < self@.len() {
                Some(self@[index as int])
            } else {
                None
            }),
    ;
}

/// A store in ordinary memory with room for a fixed number of items.
pub struct BoundedQueue<T> {
    items: Vec<T>,
    room: usize,
}

impl<T> BoundedQueue<T> {
    /// The number of items that the store has room for.
    pub closed spec fn room(&self) -> nat {
        self.room as nat
    }

    /// The items of the store in the order in which they were appended.
    pub closed spec fn items(&self) -> Seq<T> {
        self.items@
    }

    /// An empty store with room for `room` items.
    pub fn new(room: usize) -> (queue: Self)
        ensures
            queue.items() == Seq::<T>::empty(),
            queue.room() == room,
    {
        BoundedQueue { items: Vec::new(), room }
    }

    /// The number of items in the store.
    pub fn len(&self) -> (len: usize)
        ensures
            len == self.items().len(),
    {
        self.items.len()
    }
}

impl<T: Copy> VecStructure<T> for BoundedQueue<T> {
    open spec fn view(&self) -> Seq<T> {
        self.items()
    }

    /// The store takes any item for as long as it has room left.
    open spec fn accepts(&self, item: T) -> bool {
        self.items().len() < self.room()
    }

    /// Appends `item` if the store has room left, and fails otherwise.
    fn push(&mut self, item: T) -> (result: Result<(), StorageError>)
        ensures
            result is Ok <==> old(self)@.len() < old(self).room(),
            final(self).room() == old(self).room(),
    {
        if self.items.len() < self.room {
            self.items.push(item);
            Ok(())
        } else {
            Err(StorageError)
        }
    }

    fn get(&self, index: usize) -> (item: Option<T>) {
        if index < self.items.len() {
            Some(self.items[index])
        } else {
            None
        }
    }
}

} // verus!
